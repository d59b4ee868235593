//! Instances: the application info they are created with.

use vstd::prelude::*;
use vstd::string::StringSliceAdditionalSpecFns;

use crate::util::VkVersion;

pub mod debug;
pub mod error;

use error::InstanceError;

verus! {

/// Information about the application that creates an instance.
#[derive(Clone, Copy, Debug)]
pub struct ApplicationInfo<'a> {
    pub application_name: &'a str,
    pub engine_name: &'a str,
    pub application_version: VkVersion,
    pub engine_version: VkVersion,
    pub api_version: VkVersion,
}

/// Finds the first nul byte of `s`, which keeps it from becoming a C string.
pub fn nul_position(s: &str) -> (r: Option<usize>)
    ensures
        match r {
            Some(i) => 0 <= i < s.spec_bytes().len() && s.spec_bytes()[i as int] == 0 && forall|j: int|
                0 <= j < i ==> s.spec_bytes()[j] != 0,
            None => forall|j: int| 0 <= j < s.spec_bytes().len() ==> s.spec_bytes()[j] != 0,
        },
{
    let bytes = s.as_bytes();
    let mut i: usize = 0;
    while i < bytes.len()
        invariant
            bytes@ == s.spec_bytes(),
            i <= bytes@.len(),
            forall|j: int| 0 <= j < i ==> bytes@[j] != 0,
        decreases bytes.len() - i,
    {
        if bytes[i] == 0 {
            return Some(i);
        }
        i = i + 1;
    }
    None
}

impl<'a> ApplicationInfo<'a> {
    /// Checks that the application and engine names can be passed to Vulkan as C
    /// strings: the first one that holds a nul byte is reported, with its position.
    pub fn validate_names(&self) -> (r: Result<(), InstanceError>)
        ensures
            match r {
                Ok(()) => (forall|j: int|
                    0 <= j < self.application_name.spec_bytes().len()
                        ==> self.application_name.spec_bytes()[j] != 0) && (forall|j: int|
                    0 <= j < self.engine_name.spec_bytes().len() ==> self.engine_name.spec_bytes()[j]
                        != 0),
                Err(InstanceError::NulError { position }) => {
                    let app = self.application_name.spec_bytes();
                    let engine = self.engine_name.spec_bytes();
                    if exists|j: int| 0 <= j < app.len() && app[j] == 0 {
                        0 <= position < app.len() && app[position as int] == 0 && forall|j: int|
                            0 <= j < position ==> app[j] != 0
                    } else {
                        0 <= position < engine.len() && engine[position as int] == 0 && forall|j: int|
                            0 <= j < position ==> engine[j] != 0
                    }
                },
                Err(_) => false,
            },
    {
        if let Some(position) = nul_position(self.application_name) {
            return Err(InstanceError::NulError { position });
        }
        if let Some(position) = nul_position(self.engine_name) {
            return Err(InstanceError::NulError { position });
        }
        Ok(())
    }
}

} // verus!
