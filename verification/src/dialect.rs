//! Choosing, by version, among the call sequences that do the same work.

use vstd::prelude::*;
use crate::version::{Api, Version};

verus! {

/// The call sequences through which a framebuffer operation can be done.
/// A context uses exactly one of them.
#[derive(Clone, Copy, Debug, PartialEq, Eq, Structural)]
pub enum Dialect {
    /// One call that names both framebuffers; nothing is bound.
    Named,
    /// Binding and operation through the core entry points.
    Core,
    /// Binding and operation through the entry points of the framebuffer
    /// extension.
    Extension,
}

/// One row of a decision table: from `minimum` on, `dialect` is available.
#[derive(Clone, Copy, Debug, PartialEq, Eq, Structural)]
pub struct DialectRule {
    /// The first version that offers the dialect.
    pub minimum: Version,
    /// The dialect.
    pub dialect: Dialect,
}

/// The dialect of the first row of `table` whose minimum `version` reaches,
/// or `fallback` where it reaches none.
pub open spec fn spec_select(table: Seq<DialectRule>, fallback: Dialect, version: Version) -> Dialect
    decreases table.len(),
{
    if table.len() == 0 {
        fallback
    } else if version.at_least(table.first().minimum) {
        table.first().dialect
    } else {
        spec_select(table.drop_first(), fallback, version)
    }
}

/// Walks `table` from its first row and returns the dialect of the first row
/// whose minimum `version` reaches, or `fallback` where it reaches none. A
/// table lists its dialects from the highest minimum down.
pub fn select(table: &[DialectRule], fallback: Dialect, version: Version) -> (dialect: Dialect)
    ensures
        dialect == spec_select(table@, fallback, version),
{
    let mut i: usize = 0;
    proof {
        assert(table@.skip(0) =~= table@);
    }
    while i < table.len()
        invariant
            i <= table.len(),
            spec_select(table@, fallback, version) == spec_select(
                table@.skip(i as int),
                fallback,
                version,
            ),
        decreases table.len() - i,
    {
        let rule: DialectRule = table[i];
        proof {
            assert(table@.skip(i as int).first() == table@[i as int]);
            assert(table@.skip(i as int).drop_first() =~= table@.skip(i + 1));
        }
        if version.at_least(rule.minimum) {
            return rule.dialect;
        }
        i = i + 1;
    }
    fallback
}

/// The rows of `table` stand from the highest minimum down.
pub open spec fn descending(table: Seq<DialectRule>) -> bool {
    forall|i: int, j: int|
        0 <= i <= j < table.len() ==> (#[trigger] table[i]).minimum.at_least(
            (#[trigger] table[j]).minimum,
        )
}

/// The place of the first row of `table` whose minimum `version` reaches, or
/// the length of the table where it reaches none.
pub open spec fn first_reached(table: Seq<DialectRule>, version: Version) -> int
    decreases table.len(),
{
    if table.len() == 0 || version.at_least(table.first().minimum) {
        0
    } else {
        1 + first_reached(table.drop_first(), version)
    }
}

/// Selection takes the first row that the version reaches. In a table that
/// stands from the highest minimum down, no row that the version reaches has
/// a higher minimum than the row taken: the dialect is the most demanding
/// that the version offers.
pub proof fn lemma_select_takes_highest(
    table: Seq<DialectRule>,
    fallback: Dialect,
    version: Version,
)
    ensures
        ({
            let row = first_reached(table, version);
            &&& 0 <= row <= table.len()
            &&& forall|j: int| 0 <= j < row ==> !version.at_least((#[trigger] table[j]).minimum)
            &&& row < table.len() ==> version.at_least(table[row].minimum)
            &&& spec_select(table, fallback, version) == if row < table.len() {
                table[row].dialect
            } else {
                fallback
            }
            &&& descending(table) ==> forall|j: int|
                0 <= j < table.len() && version.at_least((#[trigger] table[j]).minimum)
                    ==> table[row].minimum.at_least(table[j].minimum)
        }),
    decreases table.len(),
{
    if table.len() > 0 && !version.at_least(table.first().minimum) {
        let rest = table.drop_first();
        lemma_select_takes_highest(rest, fallback, version);
        let row = first_reached(table, version);
        assert forall|j: int| 0 <= j < row implies !version.at_least(
            (#[trigger] table[j]).minimum,
        ) by {
            if j > 0 {
                assert(table[j] == rest[j - 1]);
            }
        }
        if descending(table) {
            assert forall|j: int|
                0 <= j < table.len() && version.at_least(
                    (#[trigger] table[j]).minimum,
                ) implies table[row].minimum.at_least(table[j].minimum) by {
                assert(row <= j);
            }
        }
    }
}

/// The first version with the call that blits between named framebuffers.
pub open spec fn named_blit_minimum() -> Version {
    Version(Api::Gl, 4, 5)
}

/// The first version with framebuffers among its core entry points.
pub open spec fn core_framebuffer_minimum() -> Version {
    Version(Api::Gl, 3, 0)
}

/// The decision table for blits, highest minimum first.
pub open spec fn spec_blit_dialects() -> Seq<DialectRule> {
    seq![
        DialectRule { minimum: named_blit_minimum(), dialect: Dialect::Named },
        DialectRule { minimum: core_framebuffer_minimum(), dialect: Dialect::Core },
    ]
}

/// The dialect in which a context of the given version blits: the named call
/// from primary 4.5 on, the core calls from primary 3.0 on, and the
/// framebuffer extension below that and on every embedded version.
pub open spec fn spec_blit_dialect(version: Version) -> Dialect {
    if version.at_least(named_blit_minimum()) {
        Dialect::Named
    } else if version.at_least(core_framebuffer_minimum()) {
        Dialect::Core
    } else {
        Dialect::Extension
    }
}

/// The table for blits stands from the highest minimum down.
pub proof fn lemma_blit_table_descending()
    ensures
        descending(spec_blit_dialects()),
{
}

/// Looking a version up in the table for blits gives its blit dialect.
pub proof fn lemma_blit_table_selects(version: Version)
    ensures
        spec_select(spec_blit_dialects(), Dialect::Extension, version) == spec_blit_dialect(version),
{
    reveal_with_fuel(spec_select, 3);
}

/// Gives the dialect in which a context of the given version blits.
#[verifier::when_used_as_spec(spec_blit_dialect)]
pub fn blit_dialect(version: Version) -> (dialect: Dialect)
    ensures
        dialect == spec_blit_dialect(version),
{
    let table: [DialectRule; 2] = [
        DialectRule { minimum: Version(Api::Gl, 4, 5), dialect: Dialect::Named },
        DialectRule { minimum: Version(Api::Gl, 3, 0), dialect: Dialect::Core },
    ];
    proof {
        assert(table@ =~= spec_blit_dialects());
        lemma_blit_table_selects(version);
    }
    select(table.as_slice(), Dialect::Extension, version)
}

} // verus!
