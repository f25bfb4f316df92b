//! Configuration for loading the filters of a path.

use vstd::prelude::*;
use crate::flag::{FilterFlag, FlagOption, known_bits, options_of_bits};
use crate::oid::{Oid, zero_oid};

verus! {

/// Version tag the engine expects on a load configuration.
pub const FILTER_OPTIONS_VERSION: u32 = 1;

/// How to load the filters of a path: a set of flags and, for
/// [`FlagOption::AttributesFromCommit`], the commit to read attributes from.
#[derive(Clone, Copy, Debug)]
pub struct FilterOptions {
    flags: FilterFlag,
    attr_commit_id: Option<Oid>,
}

/// A load configuration in the layout the engine reads.
#[derive(Clone, Copy, Debug)]
pub struct RawFilterOptions {
    /// Version tag.
    pub version: u32,
    /// Flag bits.
    pub flags: u32,
    /// Commit to read attributes from; all zero when none applies.
    pub attr_commit_id: Oid,
}

/// What a [`FilterOptions`] holds, as plain mathematical values.
pub struct FilterOptionsView {
    pub flags: Set<FlagOption>,
    pub attr_commit_id: Option<Seq<u8>>,
}

impl View for FilterOptions {
    type V = FilterOptionsView;

    closed spec fn view(&self) -> FilterOptionsView {
        FilterOptionsView {
            flags: self.flags@,
            attr_commit_id: match self.attr_commit_id {
                Some(id) => Some(id@),
                None => None,
            },
        }
    }
}

/// The commit that the engine is told to read attributes from: the one the
/// configuration names, provided that the flag asking for it is set.
pub open spec fn effective_commit(o: FilterOptionsView) -> Seq<u8> {
    if o.flags.contains(FlagOption::AttributesFromCommit) && o.attr_commit_id is Some {
        o.attr_commit_id->Some_0
    } else {
        zero_oid()
    }
}

impl FilterOptions {
    /// The flags, as the exec value that stands behind the view.
    pub closed spec fn flag_set(self) -> FilterFlag {
        self.flags
    }

    /// The default configuration: no flag, no commit.
    pub fn new() -> (o: FilterOptions)
        ensures
            o@.flags == Set::<FlagOption>::empty(),
            o.flag_set().raw_bits() == 0,
            o@.attr_commit_id is None,
    {
        FilterOptions { flags: FilterFlag::empty(), attr_commit_id: None }
    }

    /// Replaces the flags.
    pub fn flags(&mut self, flags: FilterFlag) -> (ret: &mut Self)
        ensures
            ret@.flags == flags@,
            ret.flag_set() == flags,
            ret@.attr_commit_id == old(self)@.attr_commit_id,
            *final(self) == *final(ret),
    {
        self.flags = flags;
        self
    }

    /// Names the commit to read attributes from. It takes effect only
    /// together with [`FlagOption::AttributesFromCommit`].
    pub fn attr_commit_id(&mut self, id: Oid) -> (ret: &mut Self)
        ensures
            ret@.flags == old(self)@.flags,
            ret.flag_set() == old(self).flag_set(),
            ret@.attr_commit_id == Some(id@),
            *final(self) == *final(ret),
    {
        self.attr_commit_id = Some(id);
        self
    }

    /// The flags of this configuration.
    pub fn get_flags(&self) -> (f: FilterFlag)
        ensures
            f == self.flag_set(),
            f@ == self@.flags,
    {
        self.flags
    }

    /// The commit named in this configuration, whether or not it takes
    /// effect.
    pub fn get_attr_commit_id(&self) -> (id: Option<Oid>)
        ensures
            id is Some <==> self@.attr_commit_id is Some,
            id is Some ==> id->Some_0@ == self@.attr_commit_id->Some_0,
    {
        self.attr_commit_id
    }

    /// The configuration in the engine's layout. The commit is passed on
    /// only if the flag that asks for it is set; otherwise the engine gets
    /// the all-zero identifier.
    pub fn raw(&self) -> (raw: RawFilterOptions)
        ensures
            raw.version == FILTER_OPTIONS_VERSION,
            raw.flags == self.flag_set().raw_bits(),
            known_bits(raw.flags),
            options_of_bits(raw.flags) == self@.flags,
            raw.attr_commit_id@ == effective_commit(self@),
    {
        let flags: u32 = self.flags.bits();
        let attr_commit_id = if self.flags.has(FlagOption::AttributesFromCommit) {
            match self.attr_commit_id {
                Some(id) => id,
                None => Oid::zero(),
            }
        } else {
            Oid::zero()
        };
        RawFilterOptions { version: FILTER_OPTIONS_VERSION, flags, attr_commit_id }
    }
}

impl Default for FilterOptions {
    fn default() -> (o: FilterOptions)
        ensures
            o@.flags == Set::<FlagOption>::empty(),
            o.flag_set().raw_bits() == 0,
            o@.attr_commit_id is None,
    {
        FilterOptions::new()
    }
}

} // verus!
