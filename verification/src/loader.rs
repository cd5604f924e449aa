//! The loader of `.slime` files.
//!
//! Turning the bytes of a file into a record is the decoder's work and happens
//! outside this crate. The loader takes over from there: it decides what a
//! load publishes.

use crate::record::Slime;
use vstd::prelude::*;

verus! {

/// Why the bytes of a file are not a record: where decoding stopped, and on
/// what.
#[derive(Debug)]
pub struct DecodeError {
    /// Line of the offending input, counted from 1.
    pub line: usize,
    /// Column of the offending input, counted from 1.
    pub col: usize,
    /// What the decoder found wrong.
    pub message: String,
}

/// What one load has published so far.
#[derive(Debug)]
pub struct LoadContext {
    /// The unlabelled artifact of the load, once there is one.
    pub default_asset: Option<Slime>,
}

impl LoadContext {
    /// The context of a load that has published nothing yet.
    pub fn new() -> (load_context: LoadContext)
        ensures
            load_context.default_asset is None,
    {
        LoadContext { default_asset: None }
    }
}

/// Loads simulation parameters from files with the extension `slime`.
#[derive(Clone, Copy, Debug, Default)]
pub struct SlimeLoader;

impl SlimeLoader {
    /// Finishes a load, given what decoding the file's bytes came to. A
    /// decoded record becomes the one artifact of the load. A decode error is
    /// handed on as it is and nothing is published: a load never leaves part
    /// of a record behind.
    pub fn load(
        &self,
        decoded: Result<Slime, DecodeError>,
        load_context: &mut LoadContext,
    ) -> (result: Result<(), DecodeError>)
        ensures
            match decoded {
                Ok(slime) => result is Ok && final(load_context).default_asset == Some(slime),
                Err(error) => result == Err::<(), DecodeError>(error)
                    && *final(load_context) == *old(load_context),
            },
    {
        let custom_asset = match decoded {
            Ok(slime) => slime,
            Err(error) => { return Err(error); },
        };
        load_context.default_asset = Some(custom_asset);
        Ok(())
    }

    /// The file extensions that this loader is offered: `slime`, and no other.
    pub fn extensions(&self) -> (extensions: &'static [&'static str])
        ensures
            extensions@.len() == 1,
            extensions@[0]@ == "slime"@,
    {
        &["slime"]
    }
}

} // verus!
