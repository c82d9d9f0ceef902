//! The request that travels in every datagram: a kind and a process id.

use vstd::prelude::*;

verus! {

/// What a request asks for.
///
/// On the wire a kind is its ordinal: `Unregister` is 0, `Register` 1,
/// `Stop` 2, `Cont` 3, `CommBegin` 4 and `CommEnd` 5.
#[derive(Clone, Copy, Debug, PartialEq, Eq, Structural)]
pub enum ReqType {
    Unregister,
    Register,
    Stop,
    Cont,
    CommBegin,
    CommEnd,
}

/// One message of the protocol. `pid` is meaningful for `Register` and
/// `Unregister` only, and is zero by convention for the other kinds.
#[derive(Clone, Copy, Debug, PartialEq, Eq, Structural)]
pub struct Request {
    pub req: ReqType,
    pub pid: i32,
}

/// Number of kinds; every valid ordinal is below it.
pub const KIND_COUNT: u32 = 6;

/// The ordinal of a kind on the wire.
pub open spec fn ordinal_of(k: ReqType) -> u32 {
    match k {
        ReqType::Unregister => 0,
        ReqType::Register => 1,
        ReqType::Stop => 2,
        ReqType::Cont => 3,
        ReqType::CommBegin => 4,
        ReqType::CommEnd => 5,
    }
}

/// The kind with a given ordinal, if there is one.
pub open spec fn kind_of(n: u32) -> Option<ReqType> {
    if n == 0 {
        Some(ReqType::Unregister)
    } else if n == 1 {
        Some(ReqType::Register)
    } else if n == 2 {
        Some(ReqType::Stop)
    } else if n == 3 {
        Some(ReqType::Cont)
    } else if n == 4 {
        Some(ReqType::CommBegin)
    } else if n == 5 {
        Some(ReqType::CommEnd)
    } else {
        None
    }
}

impl ReqType {
    /// The ordinal of this kind on the wire.
    pub fn ordinal(&self) -> (r: u32)
        ensures
            r == ordinal_of(*self),
            r < KIND_COUNT,
    {
        match self {
            ReqType::Unregister => 0,
            ReqType::Register => 1,
            ReqType::Stop => 2,
            ReqType::Cont => 3,
            ReqType::CommBegin => 4,
            ReqType::CommEnd => 5,
        }
    }

    /// The kind with ordinal `n`; `None` where `n` is out of range.
    pub fn from_ordinal(n: u32) -> (r: Option<ReqType>)
        ensures
            r == kind_of(n),
            r is None <==> n >= KIND_COUNT,
    {
        match n {
            0 => Some(ReqType::Unregister),
            1 => Some(ReqType::Register),
            2 => Some(ReqType::Stop),
            3 => Some(ReqType::Cont),
            4 => Some(ReqType::CommBegin),
            5 => Some(ReqType::CommEnd),
            _ => None,
        }
    }
}

} // verus!
