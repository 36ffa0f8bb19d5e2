//! The handle a pool stores: one native connection and its commit mode.
use vstd::prelude::*;
use core::marker::PhantomData;
use crate::mode::AutoCommitting;
use crate::mode::CommitMode;
use crate::mode::CommitTag;
use crate::mode::Transactional;

verus! {

/// One connection of the driver, tagged with the commit mode it was made for.
///
/// `C` is the driver's own connection type. The handle owns it and releases it
/// when dropped. Only the managers make handles.
pub struct ODBCConnection<C, M: CommitTag> {
    native: C,
    tag: PhantomData<M>,
}

impl<C, M: CommitTag> ODBCConnection<C, M> {
    /// The native connection this handle owns.
    pub closed spec fn native(&self) -> C {
        self.native
    }

    /// The commit mode of this handle: that of its tag.
    pub open spec fn mode_spec(&self) -> CommitMode {
        M::mode_of()
    }

    pub(crate) fn new(native: C) -> (handle: Self)
        ensures
            handle.native() == native,
    {
        ODBCConnection { native, tag: PhantomData }
    }

    /// Gives access to the native connection, to run statements on it.
    pub fn raw(&self) -> (native: &C)
        ensures
            *native == self.native(),
    {
        &self.native
    }

    /// The commit mode this handle was made for.
    pub fn mode(&self) -> (m: CommitMode)
        ensures
            m == self.mode_spec(),
    {
        M::mode()
    }
}

/// The mode of a handle is that of its type, whatever connection it holds and
/// whatever was done with it: an auto-committing handle and a transactional
/// one never pass for each other.
pub proof fn mode_is_fixed_by_the_tag<C, D>(
    auto: ODBCConnection<C, AutoCommitting>,
    manual: ODBCConnection<D, Transactional>,
)
    ensures
        auto.mode_spec() == CommitMode::AutoCommit,
        manual.mode_spec() == CommitMode::Manual,
        auto.mode_spec() != manual.mode_spec(),
{
}

} // verus!
