/// Tokens of a macro's input.
pub mod token;
/// Numeric literals.
pub mod numeral;
/// What the grammar reads: terms, constraints and errors.
pub mod ast;
/// The grammar, as rules over token sequences.
pub mod rules;
/// The reader that follows the rules.
pub mod parser;
/// Where what the grammar reads stands in its input.
pub mod places;
/// The messages the macros report for what the grammar refuses.
pub mod message;
