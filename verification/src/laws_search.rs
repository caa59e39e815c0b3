//! What the searches find, what the lists of slots hold, and what texts denote, said of
//! single places and characters.

use crate::host::{context_value, has_key};
use crate::keys::{char_of_slot, slot_of_char};
use crate::layout::{
    first_match, focused_pane, focused_tab, pane_with_id, tab_named, PaneInfoView, TabView,
};
use crate::slots::{slot_at, with_room, with_slot, without_slot, SlotView};
use crate::text::{
    digits_value, is_white_space, parsed_usize, trimmed, trimmed_end, trimmed_start,
};
use vstd::arithmetic::power::pow;
use vstd::prelude::*;

verus! {

/// A search finds the element at the first place that satisfies the predicate.
pub proof fn law_search_finds_first<A>(s: Seq<A>, pred: spec_fn(A) -> bool, at: int)
    requires
        0 <= at < s.len(),
        pred(s[at]),
        forall|k: int| 0 <= k < at ==> !pred(#[trigger] s[k]),
    ensures
        first_match(s, pred) == Some(s[at]),
    decreases s.len(),
{
    if at > 0 {
        assert(!pred(s[0]));
        let rest = s.drop_first();
        assert forall|k: int| 0 <= k < at - 1 implies !pred(#[trigger] rest[k]) by {
            assert(rest[k] == s[k + 1]);
        }
        law_search_finds_first(rest, pred, at - 1);
    }
}

/// A search finds nothing exactly where no element satisfies the predicate.
pub proof fn law_search_fails_without_match<A>(s: Seq<A>, pred: spec_fn(A) -> bool)
    ensures
        first_match(s, pred) is None <==> forall|k: int|
            0 <= k < s.len() ==> !pred(#[trigger] s[k]),
    decreases s.len(),
{
    if s.len() > 0 {
        let rest = s.drop_first();
        law_search_fails_without_match(rest, pred);
        if first_match(s, pred) is None {
            assert forall|k: int| 0 <= k < s.len() implies !pred(#[trigger] s[k]) by {
                if k > 0 {
                    assert(rest[k - 1] == s[k]);
                }
            }
        }
        if forall|k: int| 0 <= k < s.len() ==> !pred(#[trigger] s[k]) {
            assert forall|k: int| 0 <= k < rest.len() implies !pred(#[trigger] rest[k]) by {
                assert(rest[k] == s[k + 1]);
            }
            assert(!pred(s[0]));
        }
    }
}

/// The focused tab is the first active one.
pub proof fn law_focused_tab_is_first_active(tabs: Seq<TabView>, t: int)
    ensures
        0 <= t < tabs.len() && tabs[t].active && (forall|k: int|
            0 <= k < t ==> !(#[trigger] tabs[k]).active) ==> focused_tab(tabs) == Some(tabs[t]),
        (forall|k: int| 0 <= k < tabs.len() ==> !(#[trigger] tabs[k]).active) ==> focused_tab(
            tabs,
        ) is None,
{
    let pred = |tab: TabView| tab.active;
    law_search_fails_without_match(tabs, pred);
    if 0 <= t < tabs.len() && tabs[t].active && (forall|k: int|
        0 <= k < t ==> !(#[trigger] tabs[k]).active) {
        law_search_finds_first(tabs, pred, t);
    }
}

/// The tab with a name is the first one with it.
pub proof fn law_named_tab_is_first_with_name(tabs: Seq<TabView>, name: Seq<char>, t: int)
    ensures
        0 <= t < tabs.len() && tabs[t].name == name && (forall|k: int|
            0 <= k < t ==> (#[trigger] tabs[k]).name != name) ==> tab_named(tabs, name) == Some(
            tabs[t],
        ),
        (forall|k: int| 0 <= k < tabs.len() ==> (#[trigger] tabs[k]).name != name) ==> tab_named(
            tabs,
            name,
        ) is None,
{
    let pred = |tab: TabView| tab.name == name;
    law_search_fails_without_match(tabs, pred);
    if 0 <= t < tabs.len() && tabs[t].name == name && (forall|k: int|
        0 <= k < t ==> (#[trigger] tabs[k]).name != name) {
        law_search_finds_first(tabs, pred, t);
    }
}

/// The pane with an id is the first one with it, whatever else it is.
pub proof fn law_pane_is_first_with_id(panes: Seq<PaneInfoView>, id: u32, p: int)
    ensures
        0 <= p < panes.len() && panes[p].id == id && (forall|k: int|
            0 <= k < p ==> (#[trigger] panes[k]).id != id) ==> pane_with_id(panes, id) == Some(
            panes[p],
        ),
        (forall|k: int| 0 <= k < panes.len() ==> (#[trigger] panes[k]).id != id) ==> pane_with_id(
            panes,
            id,
        ) is None,
{
    let pred = |pane: PaneInfoView| pane.id == id;
    law_search_fails_without_match(panes, pred);
    if 0 <= p < panes.len() && panes[p].id == id && (forall|k: int|
        0 <= k < p ==> (#[trigger] panes[k]).id != id) {
        law_search_finds_first(panes, pred, p);
    }
}

/// The focused pane of a tab is the first terminal pane there that is focused. There is
/// none in a tab that is not listed.
pub proof fn law_focused_pane_is_first_focused_terminal(
    manifest: Map<usize, Seq<PaneInfoView>>,
    position: usize,
    p: int,
)
    ensures
        manifest.contains_key(position) && 0 <= p < manifest[position].len()
            && manifest[position][p].is_focused && !manifest[position][p].is_plugin && (forall|
            k: int,
        |
            0 <= k < p ==> !((#[trigger] manifest[position][k]).is_focused
                && !manifest[position][k].is_plugin)) ==> focused_pane(position, manifest) == Some(
            manifest[position][p],
        ),
        !manifest.contains_key(position) || (forall|k: int|
            0 <= k < manifest[position].len() ==> !((#[trigger] manifest[position][k]).is_focused
                && !manifest[position][k].is_plugin)) ==> focused_pane(position, manifest) is None,
{
    let panes = manifest[position];
    let pred = |pane: PaneInfoView| pane.is_focused && !pane.is_plugin;
    law_search_fails_without_match(panes, pred);
    if manifest.contains_key(position) && 0 <= p < panes.len() && panes[p].is_focused
        && !panes[p].is_plugin && (forall|k: int|
        0 <= k < p ==> !((#[trigger] panes[k]).is_focused && !panes[k].is_plugin)) {
        law_search_finds_first(panes, pred, p);
    }
}

/// A context gives the value of its first entry with the key.
pub proof fn law_context_gives_first_entry(
    context: Seq<(Seq<char>, Seq<char>)>,
    key: Seq<char>,
    at: int,
)
    ensures
        0 <= at < context.len() && context[at].0 == key && (forall|k: int|
            0 <= k < at ==> (#[trigger] context[k]).0 != key) ==> context_value(context, key)
            == Some(context[at].1),
        (forall|k: int| 0 <= k < context.len() ==> (#[trigger] context[k]).0 != key)
            ==> context_value(context, key) is None,
{
    let pred = has_key(key);
    law_search_fails_without_match(context, pred);
    if 0 <= at < context.len() && context[at].0 == key && (forall|k: int|
        0 <= k < at ==> (#[trigger] context[k]).0 != key) {
        law_search_finds_first(context, pred, at);
    }
}

/// The place at an index holds what the list holds there, and nothing past the end.
pub proof fn law_slot_at_place(slots: Seq<Option<SlotView>>, index: usize)
    ensures
        index < slots.len() ==> slot_at(slots, index as int) == slots[index as int],
        index >= slots.len() ==> slot_at(slots, index as int) is None,
{
}

/// Making room, putting a slot in and freeing one change the place at the index alone;
/// the list grows just enough to hold it, with free places.
pub proof fn law_slot_list_place_by_place(
    slots: Seq<Option<SlotView>>,
    index: usize,
    slot: SlotView,
    k: int,
)
    ensures
        with_room(slots, index as int).len() == if index < slots.len() {
            slots.len() as int
        } else {
            index + 1
        },
        with_slot(slots, index as int, slot).len() == with_room(slots, index as int).len(),
        with_slot(slots, index as int, slot)[index as int] == Some(slot),
        0 <= k < slots.len() ==> with_room(slots, index as int)[k] == slots[k],
        slots.len() <= k <= index ==> with_room(slots, index as int)[k] is None,
        0 <= k < slots.len() && k != index ==> with_slot(slots, index as int, slot)[k] == slots[k],
        slots.len() <= k < index ==> with_slot(slots, index as int, slot)[k] is None,
        without_slot(slots, index as int).len() == slots.len(),
        index < slots.len() ==> without_slot(slots, index as int)[index as int] is None,
        0 <= k < slots.len() && k != index ==> without_slot(slots, index as int)[k] == slots[k],
{
}

/// The letters of the slots are `y u i o p`, in either case, in this order.
pub proof fn law_letters_of_slots(c: char, index: usize)
    ensures
        slot_of_char(c) == if c == 'y' || c == 'Y' {
            Some(0usize)
        } else if c == 'u' || c == 'U' {
            Some(1usize)
        } else if c == 'i' || c == 'I' {
            Some(2usize)
        } else if c == 'o' || c == 'O' {
            Some(3usize)
        } else if c == 'p' || c == 'P' {
            Some(4usize)
        } else {
            None
        },
        char_of_slot(index) == if index < 5 {
            seq!['y', 'u', 'i', 'o', 'p'][index as int]
        } else {
            '?'
        },
{
}

/// White space around a text goes, and the text stays: trimming takes off every leading
/// and trailing white space and no other character.
pub proof fn law_trimming_takes_off_the_ends(
    before: Seq<char>,
    text: Seq<char>,
    after: Seq<char>,
)
    requires
        forall|k: int| 0 <= k < before.len() ==> is_white_space(#[trigger] before[k]),
        forall|k: int| 0 <= k < after.len() ==> is_white_space(#[trigger] after[k]),
        text.len() > 0 ==> !is_white_space(text[0]) && !is_white_space(text.last()),
    ensures
        trimmed(before + text + after) == text,
{
    lemma_trimmed_start_of(before, text + after);
    assert(before + text + after == before + (text + after));
    if text.len() > 0 {
        assert((text + after)[0] == text[0]);
        assert(trimmed_start(text + after) == text + after);
        lemma_trimmed_end_of(text, after);
    } else {
        assert(text + after == after + Seq::<char>::empty());
        lemma_trimmed_start_of(after, Seq::empty());
        assert(text == Seq::<char>::empty());
    }
}

/// Leading white space goes.
proof fn lemma_trimmed_start_of(before: Seq<char>, rest: Seq<char>)
    requires
        forall|k: int| 0 <= k < before.len() ==> is_white_space(#[trigger] before[k]),
    ensures
        trimmed_start(before + rest) == trimmed_start(rest),
    decreases before.len(),
{
    if before.len() == 0 {
        assert(before + rest == rest);
    } else {
        assert(is_white_space(before[0]));
        assert((before + rest)[0] == before[0]);
        assert((before + rest).drop_first() == before.drop_first() + rest);
        lemma_trimmed_start_of(before.drop_first(), rest);
    }
}

/// Trailing white space goes.
proof fn lemma_trimmed_end_of(text: Seq<char>, after: Seq<char>)
    requires
        forall|k: int| 0 <= k < after.len() ==> is_white_space(#[trigger] after[k]),
        text.len() > 0,
        !is_white_space(text.last()),
    ensures
        trimmed_end(text + after) == text,
    decreases after.len(),
{
    if after.len() == 0 {
        assert(text + after == text);
    } else {
        assert(is_white_space(after.last()));
        assert((text + after).last() == after.last());
        assert((text + after).drop_last() == text + after.drop_last());
        lemma_trimmed_end_of(text, after.drop_last());
    }
}

/// White space is what ASCII calls so, and no letter, digit or punctuation of ASCII is.
pub proof fn law_white_space_of_ascii(c: char)
    requires
        c <= '\x7f',
    ensures
        is_white_space(c) <==> c == ' ' || c == '\t' || c == '\n' || c == '\r' || c == '\x0b' || c
            == '\x0c',
{
}

/// The value of a row of digits: the front part counts as often as ten to the number of
/// digits behind it says, and a single digit counts for itself.
pub proof fn law_digits_by_position(front: Seq<char>, back: Seq<char>, c: char)
    ensures
        digits_value(front + back) == digits_value(front) * pow(10, back.len())
            + digits_value(back),
        '0' <= c <= '9' ==> digits_value(seq![c]) == c as int - '0' as int,
    decreases back.len(),
{
    reveal(pow);
    reveal_with_fuel(digits_value, 2);
    assert(seq![c].drop_last() == Seq::<char>::empty());
    if back.len() == 0 {
        assert(front + back == front);
    } else {
        let shorter = back.drop_last();
        law_digits_by_position(front, shorter, c);
        assert((front + back).drop_last() == front + shorter);
        assert((front + back).last() == back.last());
        let f = digits_value(front) as int;
        let p = pow(10, shorter.len());
        assert(pow(10, back.len()) == 10 * p);
        assert((f * p) * 10 == f * (10 * p)) by (nonlinear_arith);
    }
}

/// A text denotes a slot number exactly if it is a row of decimal digits, with or without
/// one plus sign before it, whose value fits.
pub proof fn law_numbers_in_text(text: Seq<char>, digits: Seq<char>)
    requires
        text == digits || text == seq!['+'] + digits,
    ensures
        digits.len() > 0 && (forall|k: int|
            0 <= k < digits.len() ==> '0' <= #[trigger] digits[k] <= '9') && digits_value(digits)
            <= usize::MAX ==> parsed_usize(text) == Some(digits_value(digits) as usize),
        digits.len() == 0 ==> parsed_usize(text) is None,
        (exists|k: int|
            0 <= k < digits.len() && !('0' <= #[trigger] digits[k] <= '9') && (text != digits || k
                > 0 || digits[0] != '+')) ==> parsed_usize(text) is None,
        (forall|k: int| 0 <= k < digits.len() ==> '0' <= #[trigger] digits[k] <= '9')
            && digits_value(digits) > usize::MAX ==> parsed_usize(text) is None,
{
    let signed = seq!['+'] + digits;
    assert(signed.drop_first() == digits);
    assert(signed[0] == '+');
    if exists|k: int|
        0 <= k < digits.len() && !('0' <= #[trigger] digits[k] <= '9') && (text != digits || k > 0
            || digits[0] != '+') {
        let k = choose|k: int|
            0 <= k < digits.len() && !('0' <= #[trigger] digits[k] <= '9') && (text != digits || k
                > 0 || digits[0] != '+');
        if text.len() > 0 && text[0] == '+' && text == digits {
            assert(digits.drop_first()[k - 1] == digits[k]);
        }
    }
}

} // verus!
