//! Option-flag sets, one per governed operation.
//!
//! Each set is a word of bits with a closed list of named bits. Node and
//! individual flags also let the caller set bits of their own; for those two
//! `is_valid` holds of every word.
use vstd::prelude::*;

use crate::bits::{bits_contain, RawFlags};

verus! {

/// Options of simplification.
///
/// At most one of `KEEP_UNARY` and `KEEP_UNARY_IN_INDIVIDUALS` may be given;
/// the operation that consumes these options rejects both together.
#[derive(Clone, Copy, Debug, PartialEq, Eq, Structural)]
pub struct SimplificationOptions {
    /// The raw word. Any pattern may be stored.
    pub bits: RawFlags,
}

impl SimplificationOptions {
    /// No bit set.
    pub const NONE: RawFlags = 0;
    /// Remove sites that no mutation refers to after simplification.
    pub const FILTER_SITES: RawFlags = 1 << 0;
    /// Remove populations that no node refers to; survivors are renumbered from zero.
    pub const FILTER_POPULATIONS: RawFlags = 1 << 1;
    /// Remove individuals that no node refers to; survivors are renumbered from zero.
    pub const FILTER_INDIVIDUALS: RawFlags = 1 << 2;
    /// Reduce the topology down to the trees that are present at sites.
    pub const REDUCE_TO_SITE_TOPOLOGY: RawFlags = 1 << 3;
    /// Keep unary nodes on the path from samples to root.
    pub const KEEP_UNARY: RawFlags = 1 << 4;
    /// Keep history ancestral to the most recent common ancestor of the samples.
    pub const KEEP_INPUT_ROOTS: RawFlags = 1 << 5;
    /// Keep unary nodes only where they belong to an individual.
    pub const KEEP_UNARY_IN_INDIVIDUALS: RawFlags = 1 << 6;
    /// Every named bit.
    pub const KNOWN: RawFlags = Self::FILTER_SITES
        | Self::FILTER_POPULATIONS
        | Self::FILTER_INDIVIDUALS
        | Self::REDUCE_TO_SITE_TOPOLOGY
        | Self::KEEP_UNARY
        | Self::KEEP_INPUT_ROOTS
        | Self::KEEP_UNARY_IN_INDIVIDUALS;

    /// The set with no bit.
    pub fn empty() -> (r: Self)
        ensures
            r.bits == Self::NONE,
    {
        SimplificationOptions { bits: Self::NONE }
    }

    /// The set of every named bit.
    pub fn all() -> (r: Self)
        ensures
            r.bits == Self::KNOWN,
    {
        SimplificationOptions { bits: Self::KNOWN }
    }

    /// The raw word.
    pub fn bits(&self) -> (r: RawFlags)
        ensures
            r == self.bits,
    {
        self.bits
    }

    /// The set of `bits`, where every bit of it is a named one.
    pub fn from_bits(bits: RawFlags) -> (r: Option<Self>)
        ensures
            r is Some <==> bits & !Self::KNOWN == 0,
            r matches Some(f) ==> f.bits == bits,
    {
        if bits & !Self::KNOWN == 0 {
            Some(SimplificationOptions { bits })
        } else {
            None
        }
    }

    /// The set of the named bits of `bits`; the others are dropped.
    pub fn from_bits_truncate(bits: RawFlags) -> (r: Self)
        ensures
            r.bits == bits & Self::KNOWN,
    {
        SimplificationOptions { bits: bits & Self::KNOWN }
    }

    /// No bit is set.
    pub fn is_empty(&self) -> (r: bool)
        ensures
            r == (self.bits == Self::NONE),
    {
        self.bits == Self::NONE
    }

    /// Every bit of `other` is set in `self`.
    pub fn contains(&self, other: Self) -> (r: bool)
        ensures
            r == bits_contain(self.bits, other.bits),
    {
        self.bits & other.bits == other.bits
    }

    /// Some bit of `other` is set in `self`.
    pub fn intersects(&self, other: Self) -> (r: bool)
        ensures
            r == (self.bits & other.bits != 0),
    {
        self.bits & other.bits != 0
    }

    /// Set every bit of `other`.
    pub fn insert(&mut self, other: Self)
        ensures
            final(self).bits == old(self).bits | other.bits,
    {
        self.bits = self.bits | other.bits;
    }

    /// Clear every bit of `other`.
    pub fn remove(&mut self, other: Self)
        ensures
            final(self).bits == old(self).bits & !other.bits,
    {
        self.bits = self.bits & !other.bits;
    }

    /// The bits set in either.
    pub fn union(self, other: Self) -> (r: Self)
        ensures
            r.bits == self.bits | other.bits,
    {
        SimplificationOptions { bits: self.bits | other.bits }
    }

    /// The bits set in both.
    pub fn intersection(self, other: Self) -> (r: Self)
        ensures
            r.bits == self.bits & other.bits,
    {
        SimplificationOptions { bits: self.bits & other.bits }
    }

    /// Only named bits are set.
    pub fn is_valid(&self) -> (r: bool)
        ensures
            r == (self.bits & !Self::KNOWN == 0),
    {
        Self::from_bits(self.bits).is_some()
    }
}

impl Default for SimplificationOptions {
    fn default() -> (r: Self)
        ensures
            r.bits == Self::NONE,
    {
        SimplificationOptions::empty()
    }
}

/// Bits that are not named are dropped.
impl From<RawFlags> for SimplificationOptions {
    fn from(bits: RawFlags) -> (r: Self) {
        SimplificationOptions { bits: bits & Self::KNOWN }
    }
}

impl vstd::std_specs::convert::FromSpecImpl<RawFlags> for SimplificationOptions {
    open spec fn obeys_from_spec() -> bool {
        true
    }

    open spec fn from_spec(bits: RawFlags) -> Self {
        SimplificationOptions { bits: bits & Self::KNOWN }
    }
}

/// Options of clearing a table collection.
#[derive(Clone, Copy, Debug, PartialEq, Eq, Structural)]
pub struct TableClearOptions {
    /// The raw word. Any pattern may be stored.
    pub bits: RawFlags,
}

impl TableClearOptions {
    /// No bit set.
    pub const NONE: RawFlags = 0;
    /// Also clear the metadata schemas of the tables.
    pub const CLEAR_METADATA_SCHEMAS: RawFlags = 1 << 0;
    /// Also clear the top-level metadata and its schema.
    pub const CLEAR_TS_METADATA_SCHEMAS: RawFlags = 1 << 1;
    /// Also clear the provenance table.
    pub const CLEAR_PROVENANCE: RawFlags = 1 << 2;
    /// Every named bit.
    pub const KNOWN: RawFlags = Self::CLEAR_METADATA_SCHEMAS
        | Self::CLEAR_TS_METADATA_SCHEMAS
        | Self::CLEAR_PROVENANCE;

    /// The set with no bit.
    pub fn empty() -> (r: Self)
        ensures
            r.bits == Self::NONE,
    {
        TableClearOptions { bits: Self::NONE }
    }

    /// The set of every named bit.
    pub fn all() -> (r: Self)
        ensures
            r.bits == Self::KNOWN,
    {
        TableClearOptions { bits: Self::KNOWN }
    }

    /// The raw word.
    pub fn bits(&self) -> (r: RawFlags)
        ensures
            r == self.bits,
    {
        self.bits
    }

    /// The set of `bits`, where every bit of it is a named one.
    pub fn from_bits(bits: RawFlags) -> (r: Option<Self>)
        ensures
            r is Some <==> bits & !Self::KNOWN == 0,
            r matches Some(f) ==> f.bits == bits,
    {
        if bits & !Self::KNOWN == 0 {
            Some(TableClearOptions { bits })
        } else {
            None
        }
    }

    /// The set of the named bits of `bits`; the others are dropped.
    pub fn from_bits_truncate(bits: RawFlags) -> (r: Self)
        ensures
            r.bits == bits & Self::KNOWN,
    {
        TableClearOptions { bits: bits & Self::KNOWN }
    }

    /// No bit is set.
    pub fn is_empty(&self) -> (r: bool)
        ensures
            r == (self.bits == Self::NONE),
    {
        self.bits == Self::NONE
    }

    /// Every bit of `other` is set in `self`.
    pub fn contains(&self, other: Self) -> (r: bool)
        ensures
            r == bits_contain(self.bits, other.bits),
    {
        self.bits & other.bits == other.bits
    }

    /// Some bit of `other` is set in `self`.
    pub fn intersects(&self, other: Self) -> (r: bool)
        ensures
            r == (self.bits & other.bits != 0),
    {
        self.bits & other.bits != 0
    }

    /// Set every bit of `other`.
    pub fn insert(&mut self, other: Self)
        ensures
            final(self).bits == old(self).bits | other.bits,
    {
        self.bits = self.bits | other.bits;
    }

    /// Clear every bit of `other`.
    pub fn remove(&mut self, other: Self)
        ensures
            final(self).bits == old(self).bits & !other.bits,
    {
        self.bits = self.bits & !other.bits;
    }

    /// The bits set in either.
    pub fn union(self, other: Self) -> (r: Self)
        ensures
            r.bits == self.bits | other.bits,
    {
        TableClearOptions { bits: self.bits | other.bits }
    }

    /// The bits set in both.
    pub fn intersection(self, other: Self) -> (r: Self)
        ensures
            r.bits == self.bits & other.bits,
    {
        TableClearOptions { bits: self.bits & other.bits }
    }

    /// Only named bits are set.
    pub fn is_valid(&self) -> (r: bool)
        ensures
            r == (self.bits & !Self::KNOWN == 0),
    {
        Self::from_bits(self.bits).is_some()
    }
}

impl Default for TableClearOptions {
    fn default() -> (r: Self)
        ensures
            r.bits == Self::NONE,
    {
        TableClearOptions::empty()
    }
}

/// Bits that are not named are dropped.
impl From<RawFlags> for TableClearOptions {
    fn from(bits: RawFlags) -> (r: Self) {
        TableClearOptions { bits: bits & Self::KNOWN }
    }
}

impl vstd::std_specs::convert::FromSpecImpl<RawFlags> for TableClearOptions {
    open spec fn obeys_from_spec() -> bool {
        true
    }

    open spec fn from_spec(bits: RawFlags) -> Self {
        TableClearOptions { bits: bits & Self::KNOWN }
    }
}

/// Options of comparing two table collections.
#[derive(Clone, Copy, Debug, PartialEq, Eq, Structural)]
pub struct TableEqualityOptions {
    /// The raw word. Any pattern may be stored.
    pub bits: RawFlags,
}

impl TableEqualityOptions {
    /// No bit set.
    pub const NONE: RawFlags = 0;
    /// Ignore the metadata of rows.
    pub const IGNORE_METADATA: RawFlags = 1 << 0;
    /// Ignore the top-level metadata.
    pub const IGNORE_TS_METADATA: RawFlags = 1 << 1;
    /// Ignore the provenance table.
    pub const IGNORE_PROVENANCE: RawFlags = 1 << 2;
    /// Ignore the timestamps of provenance rows.
    pub const IGNORE_TIMESTAMPS: RawFlags = 1 << 3;
    /// Every named bit.
    pub const KNOWN: RawFlags = Self::IGNORE_METADATA
        | Self::IGNORE_TS_METADATA
        | Self::IGNORE_PROVENANCE
        | Self::IGNORE_TIMESTAMPS;

    /// The set with no bit.
    pub fn empty() -> (r: Self)
        ensures
            r.bits == Self::NONE,
    {
        TableEqualityOptions { bits: Self::NONE }
    }

    /// The set of every named bit.
    pub fn all() -> (r: Self)
        ensures
            r.bits == Self::KNOWN,
    {
        TableEqualityOptions { bits: Self::KNOWN }
    }

    /// The raw word.
    pub fn bits(&self) -> (r: RawFlags)
        ensures
            r == self.bits,
    {
        self.bits
    }

    /// The set of `bits`, where every bit of it is a named one.
    pub fn from_bits(bits: RawFlags) -> (r: Option<Self>)
        ensures
            r is Some <==> bits & !Self::KNOWN == 0,
            r matches Some(f) ==> f.bits == bits,
    {
        if bits & !Self::KNOWN == 0 {
            Some(TableEqualityOptions { bits })
        } else {
            None
        }
    }

    /// The set of the named bits of `bits`; the others are dropped.
    pub fn from_bits_truncate(bits: RawFlags) -> (r: Self)
        ensures
            r.bits == bits & Self::KNOWN,
    {
        TableEqualityOptions { bits: bits & Self::KNOWN }
    }

    /// No bit is set.
    pub fn is_empty(&self) -> (r: bool)
        ensures
            r == (self.bits == Self::NONE),
    {
        self.bits == Self::NONE
    }

    /// Every bit of `other` is set in `self`.
    pub fn contains(&self, other: Self) -> (r: bool)
        ensures
            r == bits_contain(self.bits, other.bits),
    {
        self.bits & other.bits == other.bits
    }

    /// Some bit of `other` is set in `self`.
    pub fn intersects(&self, other: Self) -> (r: bool)
        ensures
            r == (self.bits & other.bits != 0),
    {
        self.bits & other.bits != 0
    }

    /// Set every bit of `other`.
    pub fn insert(&mut self, other: Self)
        ensures
            final(self).bits == old(self).bits | other.bits,
    {
        self.bits = self.bits | other.bits;
    }

    /// Clear every bit of `other`.
    pub fn remove(&mut self, other: Self)
        ensures
            final(self).bits == old(self).bits & !other.bits,
    {
        self.bits = self.bits & !other.bits;
    }

    /// The bits set in either.
    pub fn union(self, other: Self) -> (r: Self)
        ensures
            r.bits == self.bits | other.bits,
    {
        TableEqualityOptions { bits: self.bits | other.bits }
    }

    /// The bits set in both.
    pub fn intersection(self, other: Self) -> (r: Self)
        ensures
            r.bits == self.bits & other.bits,
    {
        TableEqualityOptions { bits: self.bits & other.bits }
    }

    /// Only named bits are set.
    pub fn is_valid(&self) -> (r: bool)
        ensures
            r == (self.bits & !Self::KNOWN == 0),
    {
        Self::from_bits(self.bits).is_some()
    }
}

impl Default for TableEqualityOptions {
    fn default() -> (r: Self)
        ensures
            r.bits == Self::NONE,
    {
        TableEqualityOptions::empty()
    }
}

/// Bits that are not named are dropped.
impl From<RawFlags> for TableEqualityOptions {
    fn from(bits: RawFlags) -> (r: Self) {
        TableEqualityOptions { bits: bits & Self::KNOWN }
    }
}

impl vstd::std_specs::convert::FromSpecImpl<RawFlags> for TableEqualityOptions {
    open spec fn obeys_from_spec() -> bool {
        true
    }

    open spec fn from_spec(bits: RawFlags) -> Self {
        TableEqualityOptions { bits: bits & Self::KNOWN }
    }
}

/// Options of sorting tables.
#[derive(Clone, Copy, Debug, PartialEq, Eq, Structural)]
pub struct TableSortOptions {
    /// The raw word. Any pattern may be stored.
    pub bits: RawFlags,
}

impl TableSortOptions {
    /// No bit set.
    pub const NONE: RawFlags = 0;
    /// Do not validate the contents of the edge table.
    pub const NO_CHECK_INTEGRITY: RawFlags = 1 << 29;
    /// Every named bit.
    pub const KNOWN: RawFlags = Self::NO_CHECK_INTEGRITY;

    /// The set with no bit.
    pub fn empty() -> (r: Self)
        ensures
            r.bits == Self::NONE,
    {
        TableSortOptions { bits: Self::NONE }
    }

    /// The set of every named bit.
    pub fn all() -> (r: Self)
        ensures
            r.bits == Self::KNOWN,
    {
        TableSortOptions { bits: Self::KNOWN }
    }

    /// The raw word.
    pub fn bits(&self) -> (r: RawFlags)
        ensures
            r == self.bits,
    {
        self.bits
    }

    /// The set of `bits`, where every bit of it is a named one.
    pub fn from_bits(bits: RawFlags) -> (r: Option<Self>)
        ensures
            r is Some <==> bits & !Self::KNOWN == 0,
            r matches Some(f) ==> f.bits == bits,
    {
        if bits & !Self::KNOWN == 0 {
            Some(TableSortOptions { bits })
        } else {
            None
        }
    }

    /// The set of the named bits of `bits`; the others are dropped.
    pub fn from_bits_truncate(bits: RawFlags) -> (r: Self)
        ensures
            r.bits == bits & Self::KNOWN,
    {
        TableSortOptions { bits: bits & Self::KNOWN }
    }

    /// No bit is set.
    pub fn is_empty(&self) -> (r: bool)
        ensures
            r == (self.bits == Self::NONE),
    {
        self.bits == Self::NONE
    }

    /// Every bit of `other` is set in `self`.
    pub fn contains(&self, other: Self) -> (r: bool)
        ensures
            r == bits_contain(self.bits, other.bits),
    {
        self.bits & other.bits == other.bits
    }

    /// Some bit of `other` is set in `self`.
    pub fn intersects(&self, other: Self) -> (r: bool)
        ensures
            r == (self.bits & other.bits != 0),
    {
        self.bits & other.bits != 0
    }

    /// Set every bit of `other`.
    pub fn insert(&mut self, other: Self)
        ensures
            final(self).bits == old(self).bits | other.bits,
    {
        self.bits = self.bits | other.bits;
    }

    /// Clear every bit of `other`.
    pub fn remove(&mut self, other: Self)
        ensures
            final(self).bits == old(self).bits & !other.bits,
    {
        self.bits = self.bits & !other.bits;
    }

    /// The bits set in either.
    pub fn union(self, other: Self) -> (r: Self)
        ensures
            r.bits == self.bits | other.bits,
    {
        TableSortOptions { bits: self.bits | other.bits }
    }

    /// The bits set in both.
    pub fn intersection(self, other: Self) -> (r: Self)
        ensures
            r.bits == self.bits & other.bits,
    {
        TableSortOptions { bits: self.bits & other.bits }
    }

    /// Only named bits are set.
    pub fn is_valid(&self) -> (r: bool)
        ensures
            r == (self.bits & !Self::KNOWN == 0),
    {
        Self::from_bits(self.bits).is_some()
    }
}

impl Default for TableSortOptions {
    fn default() -> (r: Self)
        ensures
            r.bits == Self::NONE,
    {
        TableSortOptions::empty()
    }
}

/// Bits that are not named are dropped.
impl From<RawFlags> for TableSortOptions {
    fn from(bits: RawFlags) -> (r: Self) {
        TableSortOptions { bits: bits & Self::KNOWN }
    }
}

impl vstd::std_specs::convert::FromSpecImpl<RawFlags> for TableSortOptions {
    open spec fn obeys_from_spec() -> bool {
        true
    }

    open spec fn from_spec(bits: RawFlags) -> Self {
        TableSortOptions { bits: bits & Self::KNOWN }
    }
}

/// Options of sorting the individual table.
#[derive(Clone, Copy, Debug, PartialEq, Eq, Structural)]
pub struct IndividualTableSortOptions {
    /// The raw word. Any pattern may be stored.
    pub bits: RawFlags,
}

impl IndividualTableSortOptions {
    /// No bit set.
    pub const NONE: RawFlags = 0;
    /// Every named bit.
    pub const KNOWN: RawFlags = 0;

    /// The set with no bit.
    pub fn empty() -> (r: Self)
        ensures
            r.bits == Self::NONE,
    {
        IndividualTableSortOptions { bits: Self::NONE }
    }

    /// The set of every named bit.
    pub fn all() -> (r: Self)
        ensures
            r.bits == Self::KNOWN,
    {
        IndividualTableSortOptions { bits: Self::KNOWN }
    }

    /// The raw word.
    pub fn bits(&self) -> (r: RawFlags)
        ensures
            r == self.bits,
    {
        self.bits
    }

    /// The set of `bits`, where every bit of it is a named one.
    pub fn from_bits(bits: RawFlags) -> (r: Option<Self>)
        ensures
            r is Some <==> bits & !Self::KNOWN == 0,
            r matches Some(f) ==> f.bits == bits,
    {
        if bits & !Self::KNOWN == 0 {
            Some(IndividualTableSortOptions { bits })
        } else {
            None
        }
    }

    /// The set of the named bits of `bits`; the others are dropped.
    pub fn from_bits_truncate(bits: RawFlags) -> (r: Self)
        ensures
            r.bits == bits & Self::KNOWN,
    {
        IndividualTableSortOptions { bits: bits & Self::KNOWN }
    }

    /// No bit is set.
    pub fn is_empty(&self) -> (r: bool)
        ensures
            r == (self.bits == Self::NONE),
    {
        self.bits == Self::NONE
    }

    /// Every bit of `other` is set in `self`.
    pub fn contains(&self, other: Self) -> (r: bool)
        ensures
            r == bits_contain(self.bits, other.bits),
    {
        self.bits & other.bits == other.bits
    }

    /// Some bit of `other` is set in `self`.
    pub fn intersects(&self, other: Self) -> (r: bool)
        ensures
            r == (self.bits & other.bits != 0),
    {
        self.bits & other.bits != 0
    }

    /// Set every bit of `other`.
    pub fn insert(&mut self, other: Self)
        ensures
            final(self).bits == old(self).bits | other.bits,
    {
        self.bits = self.bits | other.bits;
    }

    /// Clear every bit of `other`.
    pub fn remove(&mut self, other: Self)
        ensures
            final(self).bits == old(self).bits & !other.bits,
    {
        self.bits = self.bits & !other.bits;
    }

    /// The bits set in either.
    pub fn union(self, other: Self) -> (r: Self)
        ensures
            r.bits == self.bits | other.bits,
    {
        IndividualTableSortOptions { bits: self.bits | other.bits }
    }

    /// The bits set in both.
    pub fn intersection(self, other: Self) -> (r: Self)
        ensures
            r.bits == self.bits & other.bits,
    {
        IndividualTableSortOptions { bits: self.bits & other.bits }
    }

    /// Only named bits are set.
    pub fn is_valid(&self) -> (r: bool)
        ensures
            r == (self.bits & !Self::KNOWN == 0),
    {
        Self::from_bits(self.bits).is_some()
    }
}

impl Default for IndividualTableSortOptions {
    fn default() -> (r: Self)
        ensures
            r.bits == Self::NONE,
    {
        IndividualTableSortOptions::empty()
    }
}

/// Bits that are not named are dropped.
impl From<RawFlags> for IndividualTableSortOptions {
    fn from(bits: RawFlags) -> (r: Self) {
        IndividualTableSortOptions { bits: bits & Self::KNOWN }
    }
}

impl vstd::std_specs::convert::FromSpecImpl<RawFlags> for IndividualTableSortOptions {
    open spec fn obeys_from_spec() -> bool {
        true
    }

    open spec fn from_spec(bits: RawFlags) -> Self {
        IndividualTableSortOptions { bits: bits & Self::KNOWN }
    }
}

/// Options of iterating over trees.
#[derive(Clone, Copy, Debug, PartialEq, Eq, Structural)]
pub struct TreeFlags {
    /// The raw word. Any pattern may be stored.
    pub bits: RawFlags,
}

impl TreeFlags {
    /// No bit set.
    pub const NONE: RawFlags = 0;
    /// Keep the lists of samples below each node up to date.
    pub const SAMPLE_LISTS: RawFlags = 1 << 1;
    /// Do not keep the number of samples below each node.
    pub const NO_SAMPLE_COUNTS: RawFlags = 1 << 2;
    /// Every named bit.
    pub const KNOWN: RawFlags = Self::SAMPLE_LISTS
        | Self::NO_SAMPLE_COUNTS;

    /// The set with no bit.
    pub fn empty() -> (r: Self)
        ensures
            r.bits == Self::NONE,
    {
        TreeFlags { bits: Self::NONE }
    }

    /// The set of every named bit.
    pub fn all() -> (r: Self)
        ensures
            r.bits == Self::KNOWN,
    {
        TreeFlags { bits: Self::KNOWN }
    }

    /// The raw word.
    pub fn bits(&self) -> (r: RawFlags)
        ensures
            r == self.bits,
    {
        self.bits
    }

    /// The set of `bits`, where every bit of it is a named one.
    pub fn from_bits(bits: RawFlags) -> (r: Option<Self>)
        ensures
            r is Some <==> bits & !Self::KNOWN == 0,
            r matches Some(f) ==> f.bits == bits,
    {
        if bits & !Self::KNOWN == 0 {
            Some(TreeFlags { bits })
        } else {
            None
        }
    }

    /// The set of the named bits of `bits`; the others are dropped.
    pub fn from_bits_truncate(bits: RawFlags) -> (r: Self)
        ensures
            r.bits == bits & Self::KNOWN,
    {
        TreeFlags { bits: bits & Self::KNOWN }
    }

    /// No bit is set.
    pub fn is_empty(&self) -> (r: bool)
        ensures
            r == (self.bits == Self::NONE),
    {
        self.bits == Self::NONE
    }

    /// Every bit of `other` is set in `self`.
    pub fn contains(&self, other: Self) -> (r: bool)
        ensures
            r == bits_contain(self.bits, other.bits),
    {
        self.bits & other.bits == other.bits
    }

    /// Some bit of `other` is set in `self`.
    pub fn intersects(&self, other: Self) -> (r: bool)
        ensures
            r == (self.bits & other.bits != 0),
    {
        self.bits & other.bits != 0
    }

    /// Set every bit of `other`.
    pub fn insert(&mut self, other: Self)
        ensures
            final(self).bits == old(self).bits | other.bits,
    {
        self.bits = self.bits | other.bits;
    }

    /// Clear every bit of `other`.
    pub fn remove(&mut self, other: Self)
        ensures
            final(self).bits == old(self).bits & !other.bits,
    {
        self.bits = self.bits & !other.bits;
    }

    /// The bits set in either.
    pub fn union(self, other: Self) -> (r: Self)
        ensures
            r.bits == self.bits | other.bits,
    {
        TreeFlags { bits: self.bits | other.bits }
    }

    /// The bits set in both.
    pub fn intersection(self, other: Self) -> (r: Self)
        ensures
            r.bits == self.bits & other.bits,
    {
        TreeFlags { bits: self.bits & other.bits }
    }

    /// Only named bits are set.
    pub fn is_valid(&self) -> (r: bool)
        ensures
            r == (self.bits & !Self::KNOWN == 0),
    {
        Self::from_bits(self.bits).is_some()
    }
}

impl Default for TreeFlags {
    fn default() -> (r: Self)
        ensures
            r.bits == Self::NONE,
    {
        TreeFlags::empty()
    }
}

/// Bits that are not named are dropped.
impl From<RawFlags> for TreeFlags {
    fn from(bits: RawFlags) -> (r: Self) {
        TreeFlags { bits: bits & Self::KNOWN }
    }
}

impl vstd::std_specs::convert::FromSpecImpl<RawFlags> for TreeFlags {
    open spec fn obeys_from_spec() -> bool {
        true
    }

    open spec fn from_spec(bits: RawFlags) -> Self {
        TreeFlags { bits: bits & Self::KNOWN }
    }
}

/// Options of writing a table collection out.
#[derive(Clone, Copy, Debug, PartialEq, Eq, Structural)]
pub struct TableOutputOptions {
    /// The raw word. Any pattern may be stored.
    pub bits: RawFlags,
}

impl TableOutputOptions {
    /// No bit set.
    pub const NONE: RawFlags = 0;
    /// Every named bit.
    pub const KNOWN: RawFlags = 0;

    /// The set with no bit.
    pub fn empty() -> (r: Self)
        ensures
            r.bits == Self::NONE,
    {
        TableOutputOptions { bits: Self::NONE }
    }

    /// The set of every named bit.
    pub fn all() -> (r: Self)
        ensures
            r.bits == Self::KNOWN,
    {
        TableOutputOptions { bits: Self::KNOWN }
    }

    /// The raw word.
    pub fn bits(&self) -> (r: RawFlags)
        ensures
            r == self.bits,
    {
        self.bits
    }

    /// The set of `bits`, where every bit of it is a named one.
    pub fn from_bits(bits: RawFlags) -> (r: Option<Self>)
        ensures
            r is Some <==> bits & !Self::KNOWN == 0,
            r matches Some(f) ==> f.bits == bits,
    {
        if bits & !Self::KNOWN == 0 {
            Some(TableOutputOptions { bits })
        } else {
            None
        }
    }

    /// The set of the named bits of `bits`; the others are dropped.
    pub fn from_bits_truncate(bits: RawFlags) -> (r: Self)
        ensures
            r.bits == bits & Self::KNOWN,
    {
        TableOutputOptions { bits: bits & Self::KNOWN }
    }

    /// No bit is set.
    pub fn is_empty(&self) -> (r: bool)
        ensures
            r == (self.bits == Self::NONE),
    {
        self.bits == Self::NONE
    }

    /// Every bit of `other` is set in `self`.
    pub fn contains(&self, other: Self) -> (r: bool)
        ensures
            r == bits_contain(self.bits, other.bits),
    {
        self.bits & other.bits == other.bits
    }

    /// Some bit of `other` is set in `self`.
    pub fn intersects(&self, other: Self) -> (r: bool)
        ensures
            r == (self.bits & other.bits != 0),
    {
        self.bits & other.bits != 0
    }

    /// Set every bit of `other`.
    pub fn insert(&mut self, other: Self)
        ensures
            final(self).bits == old(self).bits | other.bits,
    {
        self.bits = self.bits | other.bits;
    }

    /// Clear every bit of `other`.
    pub fn remove(&mut self, other: Self)
        ensures
            final(self).bits == old(self).bits & !other.bits,
    {
        self.bits = self.bits & !other.bits;
    }

    /// The bits set in either.
    pub fn union(self, other: Self) -> (r: Self)
        ensures
            r.bits == self.bits | other.bits,
    {
        TableOutputOptions { bits: self.bits | other.bits }
    }

    /// The bits set in both.
    pub fn intersection(self, other: Self) -> (r: Self)
        ensures
            r.bits == self.bits & other.bits,
    {
        TableOutputOptions { bits: self.bits & other.bits }
    }

    /// Only named bits are set.
    pub fn is_valid(&self) -> (r: bool)
        ensures
            r == (self.bits & !Self::KNOWN == 0),
    {
        Self::from_bits(self.bits).is_some()
    }
}

impl Default for TableOutputOptions {
    fn default() -> (r: Self)
        ensures
            r.bits == Self::NONE,
    {
        TableOutputOptions::empty()
    }
}

/// Bits that are not named are dropped.
impl From<RawFlags> for TableOutputOptions {
    fn from(bits: RawFlags) -> (r: Self) {
        TableOutputOptions { bits: bits & Self::KNOWN }
    }
}

impl vstd::std_specs::convert::FromSpecImpl<RawFlags> for TableOutputOptions {
    open spec fn obeys_from_spec() -> bool {
        true
    }

    open spec fn from_spec(bits: RawFlags) -> Self {
        TableOutputOptions { bits: bits & Self::KNOWN }
    }
}

/// Options of building a tree sequence.
#[derive(Clone, Copy, Debug, PartialEq, Eq, Structural)]
pub struct TreeSequenceFlags {
    /// The raw word. Any pattern may be stored.
    pub bits: RawFlags,
}

impl TreeSequenceFlags {
    /// No bit set.
    pub const NONE: RawFlags = 0;
    /// Build the table indexes where they are absent.
    pub const BUILD_INDEXES: RawFlags = 1 << 0;
    /// Every named bit.
    pub const KNOWN: RawFlags = Self::BUILD_INDEXES;

    /// The set with no bit.
    pub fn empty() -> (r: Self)
        ensures
            r.bits == Self::NONE,
    {
        TreeSequenceFlags { bits: Self::NONE }
    }

    /// The set of every named bit.
    pub fn all() -> (r: Self)
        ensures
            r.bits == Self::KNOWN,
    {
        TreeSequenceFlags { bits: Self::KNOWN }
    }

    /// The raw word.
    pub fn bits(&self) -> (r: RawFlags)
        ensures
            r == self.bits,
    {
        self.bits
    }

    /// The set of `bits`, where every bit of it is a named one.
    pub fn from_bits(bits: RawFlags) -> (r: Option<Self>)
        ensures
            r is Some <==> bits & !Self::KNOWN == 0,
            r matches Some(f) ==> f.bits == bits,
    {
        if bits & !Self::KNOWN == 0 {
            Some(TreeSequenceFlags { bits })
        } else {
            None
        }
    }

    /// The set of the named bits of `bits`; the others are dropped.
    pub fn from_bits_truncate(bits: RawFlags) -> (r: Self)
        ensures
            r.bits == bits & Self::KNOWN,
    {
        TreeSequenceFlags { bits: bits & Self::KNOWN }
    }

    /// No bit is set.
    pub fn is_empty(&self) -> (r: bool)
        ensures
            r == (self.bits == Self::NONE),
    {
        self.bits == Self::NONE
    }

    /// Every bit of `other` is set in `self`.
    pub fn contains(&self, other: Self) -> (r: bool)
        ensures
            r == bits_contain(self.bits, other.bits),
    {
        self.bits & other.bits == other.bits
    }

    /// Some bit of `other` is set in `self`.
    pub fn intersects(&self, other: Self) -> (r: bool)
        ensures
            r == (self.bits & other.bits != 0),
    {
        self.bits & other.bits != 0
    }

    /// Set every bit of `other`.
    pub fn insert(&mut self, other: Self)
        ensures
            final(self).bits == old(self).bits | other.bits,
    {
        self.bits = self.bits | other.bits;
    }

    /// Clear every bit of `other`.
    pub fn remove(&mut self, other: Self)
        ensures
            final(self).bits == old(self).bits & !other.bits,
    {
        self.bits = self.bits & !other.bits;
    }

    /// The bits set in either.
    pub fn union(self, other: Self) -> (r: Self)
        ensures
            r.bits == self.bits | other.bits,
    {
        TreeSequenceFlags { bits: self.bits | other.bits }
    }

    /// The bits set in both.
    pub fn intersection(self, other: Self) -> (r: Self)
        ensures
            r.bits == self.bits & other.bits,
    {
        TreeSequenceFlags { bits: self.bits & other.bits }
    }

    /// Only named bits are set.
    pub fn is_valid(&self) -> (r: bool)
        ensures
            r == (self.bits & !Self::KNOWN == 0),
    {
        Self::from_bits(self.bits).is_some()
    }
}

impl Default for TreeSequenceFlags {
    fn default() -> (r: Self)
        ensures
            r.bits == Self::NONE,
    {
        TreeSequenceFlags::empty()
    }
}

/// Bits that are not named are dropped.
impl From<RawFlags> for TreeSequenceFlags {
    fn from(bits: RawFlags) -> (r: Self) {
        TreeSequenceFlags { bits: bits & Self::KNOWN }
    }
}

impl vstd::std_specs::convert::FromSpecImpl<RawFlags> for TreeSequenceFlags {
    open spec fn obeys_from_spec() -> bool {
        true
    }

    open spec fn from_spec(bits: RawFlags) -> Self {
        TreeSequenceFlags { bits: bits & Self::KNOWN }
    }
}

/// Options of checking the integrity of tables.
///
/// With none given, a set of basic checks is made.
#[derive(Clone, Copy, Debug, PartialEq, Eq, Structural)]
pub struct TableIntegrityCheckFlags {
    /// The raw word. Any pattern may be stored.
    pub bits: RawFlags,
}

impl TableIntegrityCheckFlags {
    /// No bit set.
    pub const NONE: RawFlags = 0;
    /// Check that edges are ordered.
    pub const CHECK_EDGE_ORDERING: RawFlags = 1 << 0;
    /// Check that sites are ordered.
    pub const CHECK_SITE_ORDERING: RawFlags = 1 << 1;
    /// Check for duplicated sites.
    pub const CHECK_SITE_DUPLICATES: RawFlags = 1 << 2;
    /// Check that mutations are ordered.
    pub const CHECK_MUTATION_ORDERING: RawFlags = 1 << 3;
    /// Check that individuals are ordered.
    pub const CHECK_INDIVIDUAL_ORDERING: RawFlags = 1 << 4;
    /// Check that migrations are ordered.
    pub const CHECK_MIGRATION_ORDERING: RawFlags = 1 << 5;
    /// Check that the table indexes are valid.
    pub const CHECK_INDEXES: RawFlags = 1 << 6;
    /// Check the integrity of the trees; enables most of the checks above.
    pub const CHECK_TREES: RawFlags = 1 << 7;
    /// Every named bit.
    pub const KNOWN: RawFlags = Self::CHECK_EDGE_ORDERING
        | Self::CHECK_SITE_ORDERING
        | Self::CHECK_SITE_DUPLICATES
        | Self::CHECK_MUTATION_ORDERING
        | Self::CHECK_INDIVIDUAL_ORDERING
        | Self::CHECK_MIGRATION_ORDERING
        | Self::CHECK_INDEXES
        | Self::CHECK_TREES;

    /// The set with no bit.
    pub fn empty() -> (r: Self)
        ensures
            r.bits == Self::NONE,
    {
        TableIntegrityCheckFlags { bits: Self::NONE }
    }

    /// The set of every named bit.
    pub fn all() -> (r: Self)
        ensures
            r.bits == Self::KNOWN,
    {
        TableIntegrityCheckFlags { bits: Self::KNOWN }
    }

    /// The raw word.
    pub fn bits(&self) -> (r: RawFlags)
        ensures
            r == self.bits,
    {
        self.bits
    }

    /// The set of `bits`, where every bit of it is a named one.
    pub fn from_bits(bits: RawFlags) -> (r: Option<Self>)
        ensures
            r is Some <==> bits & !Self::KNOWN == 0,
            r matches Some(f) ==> f.bits == bits,
    {
        if bits & !Self::KNOWN == 0 {
            Some(TableIntegrityCheckFlags { bits })
        } else {
            None
        }
    }

    /// The set of the named bits of `bits`; the others are dropped.
    pub fn from_bits_truncate(bits: RawFlags) -> (r: Self)
        ensures
            r.bits == bits & Self::KNOWN,
    {
        TableIntegrityCheckFlags { bits: bits & Self::KNOWN }
    }

    /// No bit is set.
    pub fn is_empty(&self) -> (r: bool)
        ensures
            r == (self.bits == Self::NONE),
    {
        self.bits == Self::NONE
    }

    /// Every bit of `other` is set in `self`.
    pub fn contains(&self, other: Self) -> (r: bool)
        ensures
            r == bits_contain(self.bits, other.bits),
    {
        self.bits & other.bits == other.bits
    }

    /// Some bit of `other` is set in `self`.
    pub fn intersects(&self, other: Self) -> (r: bool)
        ensures
            r == (self.bits & other.bits != 0),
    {
        self.bits & other.bits != 0
    }

    /// Set every bit of `other`.
    pub fn insert(&mut self, other: Self)
        ensures
            final(self).bits == old(self).bits | other.bits,
    {
        self.bits = self.bits | other.bits;
    }

    /// Clear every bit of `other`.
    pub fn remove(&mut self, other: Self)
        ensures
            final(self).bits == old(self).bits & !other.bits,
    {
        self.bits = self.bits & !other.bits;
    }

    /// The bits set in either.
    pub fn union(self, other: Self) -> (r: Self)
        ensures
            r.bits == self.bits | other.bits,
    {
        TableIntegrityCheckFlags { bits: self.bits | other.bits }
    }

    /// The bits set in both.
    pub fn intersection(self, other: Self) -> (r: Self)
        ensures
            r.bits == self.bits & other.bits,
    {
        TableIntegrityCheckFlags { bits: self.bits & other.bits }
    }

    /// Only named bits are set.
    pub fn is_valid(&self) -> (r: bool)
        ensures
            r == (self.bits & !Self::KNOWN == 0),
    {
        Self::from_bits(self.bits).is_some()
    }
}

impl Default for TableIntegrityCheckFlags {
    fn default() -> (r: Self)
        ensures
            r.bits == Self::NONE,
    {
        TableIntegrityCheckFlags::empty()
    }
}

/// Bits that are not named are dropped.
impl From<RawFlags> for TableIntegrityCheckFlags {
    fn from(bits: RawFlags) -> (r: Self) {
        TableIntegrityCheckFlags { bits: bits & Self::KNOWN }
    }
}

impl vstd::std_specs::convert::FromSpecImpl<RawFlags> for TableIntegrityCheckFlags {
    open spec fn obeys_from_spec() -> bool {
        true
    }

    open spec fn from_spec(bits: RawFlags) -> Self {
        TableIntegrityCheckFlags { bits: bits & Self::KNOWN }
    }
}

/// Flags of a node.
///
/// Bits beyond the named ones belong to the caller and are never checked.
#[derive(Clone, Copy, Debug, PartialEq, Eq, Structural)]
pub struct NodeFlags {
    /// The raw word. Any pattern may be stored.
    pub bits: RawFlags,
}

impl NodeFlags {
    /// No bit set.
    pub const NONE: RawFlags = 0;
    /// The node is a sample.
    pub const IS_SAMPLE: RawFlags = 1 << 0;
    /// Every named bit.
    pub const KNOWN: RawFlags = Self::IS_SAMPLE;

    /// The set with no bit.
    pub fn empty() -> (r: Self)
        ensures
            r.bits == Self::NONE,
    {
        NodeFlags { bits: Self::NONE }
    }

    /// The set of every named bit.
    pub fn all() -> (r: Self)
        ensures
            r.bits == Self::KNOWN,
    {
        NodeFlags { bits: Self::KNOWN }
    }

    /// The raw word.
    pub fn bits(&self) -> (r: RawFlags)
        ensures
            r == self.bits,
    {
        self.bits
    }

    /// The set of `bits`, where every bit of it is a named one.
    pub fn from_bits(bits: RawFlags) -> (r: Option<Self>)
        ensures
            r is Some <==> bits & !Self::KNOWN == 0,
            r matches Some(f) ==> f.bits == bits,
    {
        if bits & !Self::KNOWN == 0 {
            Some(NodeFlags { bits })
        } else {
            None
        }
    }

    /// The set of the named bits of `bits`; the others are dropped.
    pub fn from_bits_truncate(bits: RawFlags) -> (r: Self)
        ensures
            r.bits == bits & Self::KNOWN,
    {
        NodeFlags { bits: bits & Self::KNOWN }
    }

    /// No bit is set.
    pub fn is_empty(&self) -> (r: bool)
        ensures
            r == (self.bits == Self::NONE),
    {
        self.bits == Self::NONE
    }

    /// Every bit of `other` is set in `self`.
    pub fn contains(&self, other: Self) -> (r: bool)
        ensures
            r == bits_contain(self.bits, other.bits),
    {
        self.bits & other.bits == other.bits
    }

    /// Some bit of `other` is set in `self`.
    pub fn intersects(&self, other: Self) -> (r: bool)
        ensures
            r == (self.bits & other.bits != 0),
    {
        self.bits & other.bits != 0
    }

    /// Set every bit of `other`.
    pub fn insert(&mut self, other: Self)
        ensures
            final(self).bits == old(self).bits | other.bits,
    {
        self.bits = self.bits | other.bits;
    }

    /// Clear every bit of `other`.
    pub fn remove(&mut self, other: Self)
        ensures
            final(self).bits == old(self).bits & !other.bits,
    {
        self.bits = self.bits & !other.bits;
    }

    /// The bits set in either.
    pub fn union(self, other: Self) -> (r: Self)
        ensures
            r.bits == self.bits | other.bits,
    {
        NodeFlags { bits: self.bits | other.bits }
    }

    /// The bits set in both.
    pub fn intersection(self, other: Self) -> (r: Self)
        ensures
            r.bits == self.bits & other.bits,
    {
        NodeFlags { bits: self.bits & other.bits }
    }

    /// Flags of this kind are not checked: the caller owns the bits beyond
    /// the named ones, so every word is valid.
    pub fn is_valid(&self) -> (r: bool)
        ensures
            r,
    {
        true
    }

    /// A new set with `IS_SAMPLE` set.
    pub fn new_sample() -> (r: Self)
        ensures
            r.bits == Self::IS_SAMPLE,
    {
        NodeFlags { bits: Self::IS_SAMPLE }
    }

    /// `IS_SAMPLE` is set.
    pub fn is_sample(&self) -> (r: bool)
        ensures
            r == bits_contain(self.bits, Self::IS_SAMPLE),
    {
        self.contains(NodeFlags { bits: Self::IS_SAMPLE })
    }
}

impl Default for NodeFlags {
    fn default() -> (r: Self)
        ensures
            r.bits == Self::NONE,
    {
        NodeFlags::empty()
    }
}

/// Every bit of `bits` is kept, named or not.
impl From<RawFlags> for NodeFlags {
    fn from(bits: RawFlags) -> (r: Self) {
        NodeFlags { bits: bits }
    }
}

impl vstd::std_specs::convert::FromSpecImpl<RawFlags> for NodeFlags {
    open spec fn obeys_from_spec() -> bool {
        true
    }

    open spec fn from_spec(bits: RawFlags) -> Self {
        NodeFlags { bits: bits }
    }
}

/// Flags of an individual.
///
/// Any bit belongs to the caller and is never checked.
#[derive(Clone, Copy, Debug, PartialEq, Eq, Structural)]
pub struct IndividualFlags {
    /// The raw word. Any pattern may be stored.
    pub bits: RawFlags,
}

impl IndividualFlags {
    /// No bit set.
    pub const NONE: RawFlags = 0;
    /// Every named bit.
    pub const KNOWN: RawFlags = 0;

    /// The set with no bit.
    pub fn empty() -> (r: Self)
        ensures
            r.bits == Self::NONE,
    {
        IndividualFlags { bits: Self::NONE }
    }

    /// The set of every named bit.
    pub fn all() -> (r: Self)
        ensures
            r.bits == Self::KNOWN,
    {
        IndividualFlags { bits: Self::KNOWN }
    }

    /// The raw word.
    pub fn bits(&self) -> (r: RawFlags)
        ensures
            r == self.bits,
    {
        self.bits
    }

    /// The set of `bits`, where every bit of it is a named one.
    pub fn from_bits(bits: RawFlags) -> (r: Option<Self>)
        ensures
            r is Some <==> bits & !Self::KNOWN == 0,
            r matches Some(f) ==> f.bits == bits,
    {
        if bits & !Self::KNOWN == 0 {
            Some(IndividualFlags { bits })
        } else {
            None
        }
    }

    /// The set of the named bits of `bits`; the others are dropped.
    pub fn from_bits_truncate(bits: RawFlags) -> (r: Self)
        ensures
            r.bits == bits & Self::KNOWN,
    {
        IndividualFlags { bits: bits & Self::KNOWN }
    }

    /// No bit is set.
    pub fn is_empty(&self) -> (r: bool)
        ensures
            r == (self.bits == Self::NONE),
    {
        self.bits == Self::NONE
    }

    /// Every bit of `other` is set in `self`.
    pub fn contains(&self, other: Self) -> (r: bool)
        ensures
            r == bits_contain(self.bits, other.bits),
    {
        self.bits & other.bits == other.bits
    }

    /// Some bit of `other` is set in `self`.
    pub fn intersects(&self, other: Self) -> (r: bool)
        ensures
            r == (self.bits & other.bits != 0),
    {
        self.bits & other.bits != 0
    }

    /// Set every bit of `other`.
    pub fn insert(&mut self, other: Self)
        ensures
            final(self).bits == old(self).bits | other.bits,
    {
        self.bits = self.bits | other.bits;
    }

    /// Clear every bit of `other`.
    pub fn remove(&mut self, other: Self)
        ensures
            final(self).bits == old(self).bits & !other.bits,
    {
        self.bits = self.bits & !other.bits;
    }

    /// The bits set in either.
    pub fn union(self, other: Self) -> (r: Self)
        ensures
            r.bits == self.bits | other.bits,
    {
        IndividualFlags { bits: self.bits | other.bits }
    }

    /// The bits set in both.
    pub fn intersection(self, other: Self) -> (r: Self)
        ensures
            r.bits == self.bits & other.bits,
    {
        IndividualFlags { bits: self.bits & other.bits }
    }

    /// Flags of this kind are not checked: the caller owns the bits beyond
    /// the named ones, so every word is valid.
    pub fn is_valid(&self) -> (r: bool)
        ensures
            r,
    {
        true
    }
}

impl Default for IndividualFlags {
    fn default() -> (r: Self)
        ensures
            r.bits == Self::NONE,
    {
        IndividualFlags::empty()
    }
}

/// Every bit of `bits` is kept, named or not.
impl From<RawFlags> for IndividualFlags {
    fn from(bits: RawFlags) -> (r: Self) {
        IndividualFlags { bits: bits }
    }
}

impl vstd::std_specs::convert::FromSpecImpl<RawFlags> for IndividualFlags {
    open spec fn obeys_from_spec() -> bool {
        true
    }

    open spec fn from_spec(bits: RawFlags) -> Self {
        IndividualFlags { bits: bits }
    }
}

} // verus!
