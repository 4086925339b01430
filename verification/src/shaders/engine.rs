//! Global lifecycle of the translation engine.
//!
//! The engine is set up once per process before any compiler is constructed
//! and torn down after the last one is destroyed. Keeping that order is the
//! caller's obligation: this layer keeps no record of it and only turns the
//! status that the engine reports into a result.
use vstd::prelude::*;

verus! {

/// Outcome of the engine's one-time global setup, from the status that the
/// native call reported: zero means failure, anything else success.
///
/// Constructing a compiler before a setup that succeeded is undefined by the
/// engine.
pub fn initialize(status: i32) -> (outcome: Result<(), &'static str>)
    ensures
        outcome is Ok <==> status != 0,
        outcome matches Err(message) ==> message@ == "Couldn't initialize GLSLang"@,
{
    if status == 0 {
        Err("Couldn't initialize GLSLang")
    } else {
        Ok(())
    }
}

/// Outcome of the engine's global teardown, from the status that the native
/// call reported: zero means failure, anything else success.
///
/// Teardown must not be asked for while a compiler is still alive.
pub fn finalize(status: i32) -> (outcome: Result<(), &'static str>)
    ensures
        outcome is Ok <==> status != 0,
        outcome matches Err(message) ==> message@ == "Couldn't finalize GLSLang"@,
{
    if status == 0 {
        Err("Couldn't finalize GLSLang")
    } else {
        Ok(())
    }
}

} // verus!
