//! The error type of the hypervisor core.

use vstd::prelude::*;
use vstd::std_specs::convert::FromSpecImpl;
use crate::memory::paging::PagingError;

verus! {

/// The kind of a failure, named after the errno it is reported as.
#[derive(Clone, Copy, Debug, PartialEq, Eq, Structural)]
pub enum HvErrorNum {
    /// Out of memory.
    ENOMEM,
    /// Bad address.
    EFAULT,
    /// No such device, or the processor lacks a required feature.
    ENODEV,
    /// Invalid argument.
    EINVAL,
}

/// A failure with an optional explanation.
#[derive(Clone, Copy, Debug, PartialEq, Eq)]
pub struct HvError {
    pub num: HvErrorNum,
    pub msg: Option<&'static str>,
}

pub type HvResult<T> = Result<T, HvError>;

impl HvErrorNum {
    /// The errno value of the kind.
    pub fn code(self) -> (r: i32)
        ensures
            r == match self {
                HvErrorNum::ENOMEM => 12i32,
                HvErrorNum::EFAULT => 14i32,
                HvErrorNum::ENODEV => 19i32,
                HvErrorNum::EINVAL => 22i32,
            },
    {
        match self {
            HvErrorNum::ENOMEM => 12,
            HvErrorNum::EFAULT => 14,
            HvErrorNum::ENODEV => 19,
            HvErrorNum::EINVAL => 22,
        }
    }
}

impl HvError {
    /// A failure of kind `num` without explanation.
    pub fn new(num: HvErrorNum) -> (e: HvError)
        ensures
            e == (HvError { num, msg: None }),
    {
        HvError { num, msg: None }
    }

    /// A failure of kind `num` with an explanation.
    pub fn with_msg(num: HvErrorNum, msg: &'static str) -> (e: HvError)
        ensures
            e == (HvError { num, msg: Some(msg) }),
    {
        HvError { num, msg: Some(msg) }
    }
}

impl From<PagingError> for HvError {
    fn from(err: PagingError) -> (e: HvError) {
        match err {
            PagingError::NoMemory => HvError::new(HvErrorNum::ENOMEM),
            _ => HvError::new(HvErrorNum::EFAULT),
        }
    }
}

impl FromSpecImpl<PagingError> for HvError {
    open spec fn obeys_from_spec() -> bool {
        true
    }

    /// Exhaustion of the frame pool is reported as out of memory, every
    /// other paging failure as a bad address.
    open spec fn from_spec(err: PagingError) -> HvError {
        if err == PagingError::NoMemory {
            HvError { num: HvErrorNum::ENOMEM, msg: None }
        } else {
            HvError { num: HvErrorNum::EFAULT, msg: None }
        }
    }
}

} // verus!
