//! The carrier module that is deployed in place of a mock's code.

use vstd::prelude::*;

verus! {

/// A dummy contract that is used to deploy a mock.
///
/// Has a single noop constructor and a single panicking message.
pub const DUMMY_CONTRACT: &'static str = r#"
(module
	(import "env" "memory" (memory 1 1))
	(func (export "deploy"))
	(func (export "call") (unreachable))
)"#;

/// `wat::Error`: why a text did not assemble. Nothing is read from it.
#[verifier::external_type_specification]
#[verifier::external_body]
pub struct ExWatError(wat::Error);

/// Whether `outcome` is what one run of the assembler made of `text`: the binary
/// module, or nothing where the text did not assemble.
///
/// This is a relation and no function: two runs on one text need not agree.
pub uninterp spec fn assembled_from(text: Seq<char>, outcome: Option<Seq<u8>>) -> bool;

/// What the assembler gave, as plain values.
pub open spec fn outcome_view(binary: Result<Vec<u8>, InvalidModule>) -> Option<Seq<u8>> {
    match binary {
        Ok(bytes) => Some(bytes@),
        Err(_) => None,
    }
}

/// `wat::parse_str`: assembles a module from its text format. The contract says only
/// that what comes back was made of `text` by this call; whether a text assembles,
/// and to which bytes, is the assembler's to say.
#[verifier::external_body]
fn parse_wat(text: &str) -> (binary: Result<Vec<u8>, wat::Error>)
    ensures
        assembled_from(
            text@,
            match binary {
                Ok(bytes) => Some(bytes@),
                Err(_) => None,
            },
        ),
{
    wat::parse_str(text)
}

/// The text is no module in the WebAssembly text format.
#[derive(Clone, Copy, Debug, PartialEq, Eq, Structural)]
pub struct InvalidModule;

/// Assembles the carrier: what comes back was made of [`DUMMY_CONTRACT`].
pub fn dummy_contract() -> (binary: Result<Vec<u8>, InvalidModule>)
    ensures
        assembled_from(DUMMY_CONTRACT@, outcome_view(binary)),
{
    match parse_wat(DUMMY_CONTRACT) {
        Ok(bytes) => Ok(bytes),
        Err(_) => Err(InvalidModule),
    }
}

} // verus!
