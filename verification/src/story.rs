//! The room story: one line per automation event, and the narrative composed
//! from the timeline, earliest tick first.

use vstd::prelude::*;

use crate::text::{decimal, joined, push_decimal, push_joined};

verus! {

/// An entry of a room's timeline: the tick and what happened.
pub type TimelineEntry = (u64, String);

/// The view of a timeline entry.
pub open spec fn entry_view(e: TimelineEntry) -> (u64, Seq<char>) {
    (e.0, e.1@)
}

/// The timeline line of an automation event: `automation: action → result`,
/// where an empty result reads `ok`.
pub open spec fn story_line_text(automation: Seq<char>, action: Seq<char>, result: Seq<char>) -> Seq<
    char,
> {
    automation + ": "@ + action + " → "@ + (if result.len() == 0 {
        "ok"@
    } else {
        result
    })
}

/// One event in the narrative: `[t=TICK] description`.
pub open spec fn event_text(e: (u64, Seq<char>)) -> Seq<char> {
    "[t="@ + decimal(e.0 as nat) + "] "@ + e.1
}

/// `a` comes no later than `b` in text order: character by character by code
/// point, a prefix before any longer text.
pub open spec fn text_le(a: Seq<char>, b: Seq<char>) -> bool
    decreases a.len(),
{
    if a.len() == 0 {
        true
    } else if b.len() == 0 {
        false
    } else if a[0] != b[0] {
        (a[0] as int) < (b[0] as int)
    } else {
        text_le(a.drop_first(), b.drop_first())
    }
}

/// Entry `a` comes no later than entry `b`: an earlier tick first, and within
/// one tick the description first in text order.
pub open spec fn entry_le(a: (u64, Seq<char>), b: (u64, Seq<char>)) -> bool {
    a.0 < b.0 || (a.0 == b.0 && text_le(a.1, b.1))
}

/// `e` placed into `sorted` after every entry that comes no later than it.
pub open spec fn insert_ordered(sorted: Seq<(u64, Seq<char>)>, e: (u64, Seq<char>)) -> Seq<
    (u64, Seq<char>),
>
    decreases sorted.len(),
{
    if sorted.len() == 0 {
        seq![e]
    } else if entry_le(sorted.last(), e) {
        sorted.push(e)
    } else {
        insert_ordered(sorted.drop_last(), e).push(sorted.last())
    }
}

/// The entries ordered by tick, and within one tick by description.
pub open spec fn sort_entries(s: Seq<(u64, Seq<char>)>) -> Seq<(u64, Seq<char>)>
    decreases s.len(),
{
    if s.len() == 0 {
        s
    } else {
        insert_ordered(sort_entries(s.drop_last()), s.last())
    }
}

/// The narrative of a timeline: `No events recorded.` for an empty one, else
/// its events ordered by tick (and within one tick by description), each as
/// `[t=TICK] description`, joined by `; `.
pub open spec fn narrative_of(timeline: Seq<(u64, Seq<char>)>) -> Seq<char> {
    if timeline.len() == 0 {
        "No events recorded."@
    } else {
        joined(sort_entries(timeline).map_values(|e: (u64, Seq<char>)| event_text(e)), "; "@)
    }
}

/// What a story shows: its narrative, or `Story not yet composed.` before one
/// was composed.
pub open spec fn rendered(narrative: Seq<char>) -> Seq<char> {
    if narrative.len() == 0 {
        "Story not yet composed."@
    } else {
        narrative
    }
}

/// The timeline line of an automation event.
pub fn story_line(automation: &str, action: &str, result: &str) -> (r: String)
    ensures
        r@ == story_line_text(automation@, action@, result@),
{
    let mut s = String::from_str(automation);
    s.append(": ");
    s.append(action);
    s.append(" → ");
    proof {
        reveal_strlit(": ");
        reveal_strlit(" → ");
        reveal_strlit("ok");
    }
    if result.unicode_len() == 0 {
        s.append("ok");
    } else {
        s.append(result);
    }
    assert(s@ =~= story_line_text(automation@, action@, result@));
    s
}

/// Whether `a` comes no later than `b` in text order.
pub fn text_le_of(a: &str, b: &str) -> (r: bool)
    ensures
        r == text_le(a@, b@),
{
    let n: usize = a.unicode_len();
    let m: usize = b.unicode_len();
    let mut i: usize = 0;
    assert(a@.skip(0) =~= a@);
    assert(b@.skip(0) =~= b@);
    while i < n && i < m
        invariant
            n == a@.len(),
            m == b@.len(),
            i <= n,
            i <= m,
            text_le(a@, b@) == text_le(a@.skip(i as int), b@.skip(i as int)),
        decreases n - i,
    {
        let c = a.get_char(i);
        let d = b.get_char(i);
        if c != d {
            return (c as u32) < (d as u32);
        }
        assert(a@.skip(i as int).drop_first() =~= a@.skip(i as int + 1));
        assert(b@.skip(i as int).drop_first() =~= b@.skip(i as int + 1));
        i = i + 1;
    }
    i == n
}

fn insert_entry(sorted: &mut Vec<TimelineEntry>, e: TimelineEntry)
    ensures
        final(sorted)@.map_values(|x: TimelineEntry| entry_view(x)) == insert_ordered(
            old(sorted)@.map_values(|x: TimelineEntry| entry_view(x)),
            entry_view(e),
        ),
    decreases old(sorted)@.len(),
{
    let ghost before = sorted@.map_values(|x: TimelineEntry| entry_view(x));
    let n: usize = sorted.len();
    if n == 0 {
        sorted.push(e);
        assert(sorted@.map_values(|x: TimelineEntry| entry_view(x)) =~= seq![entry_view(e)]);
    } else if sorted[n - 1].0 < e.0 || (sorted[n - 1].0 == e.0 && text_le_of(
        sorted[n - 1].1.as_str(),
        e.1.as_str(),
    )) {
        sorted.push(e);
        assert(sorted@.map_values(|x: TimelineEntry| entry_view(x)) =~= before.push(
            entry_view(e),
        ));
    } else {
        let last = sorted.pop().unwrap();
        assert(sorted@.map_values(|x: TimelineEntry| entry_view(x)) =~= before.drop_last());
        insert_entry(sorted, e);
        let ghost mid = sorted@.map_values(|x: TimelineEntry| entry_view(x));
        sorted.push(last);
        assert(sorted@.map_values(|x: TimelineEntry| entry_view(x)) =~= mid.push(
            entry_view(last),
        ));
    }
}

/// The narrative composed from a timeline.
pub fn compose_narrative(timeline: &Vec<TimelineEntry>) -> (r: String)
    ensures
        r@ == narrative_of(timeline@.map_values(|x: TimelineEntry| entry_view(x))),
{
    let ghost views = timeline@.map_values(|x: TimelineEntry| entry_view(x));
    if timeline.len() == 0 {
        proof {
            reveal_strlit("No events recorded.");
        }
        return String::from_str("No events recorded.");
    }
    let mut sorted: Vec<TimelineEntry> = Vec::new();
    let mut i: usize = 0;
    while i < timeline.len()
        invariant
            i <= timeline.len(),
            views == timeline@.map_values(|x: TimelineEntry| entry_view(x)),
            sorted@.map_values(|x: TimelineEntry| entry_view(x)) == sort_entries(
                views.subrange(0, i as int),
            ),
        decreases timeline.len() - i,
    {
        let e: TimelineEntry = (timeline[i].0, timeline[i].1.clone());
        insert_entry(&mut sorted, e);
        assert(views.subrange(0, i as int + 1).drop_last() =~= views.subrange(0, i as int));
        i = i + 1;
    }
    assert(views.subrange(0, timeline.len() as int) =~= views);
    let ghost order = sort_entries(views);
    let mut lines: Vec<String> = Vec::new();
    let mut j: usize = 0;
    while j < sorted.len()
        invariant
            j <= sorted.len(),
            order == sorted@.map_values(|x: TimelineEntry| entry_view(x)),
            lines@.map_values(|x: String| x@) =~= order.subrange(0, j as int).map_values(
                |e: (u64, Seq<char>)| event_text(e),
            ),
        decreases sorted.len() - j,
    {
        let mut line = String::from_str("[t=");
        push_decimal(&mut line, sorted[j].0);
        line.append("] ");
        line.append(sorted[j].1.as_str());
        proof {
            reveal_strlit("[t=");
            reveal_strlit("] ");
            assert(line@ =~= event_text(order[j as int]));
        }
        let ghost prev = lines@;
        lines.push(line);
        assert(lines@.map_values(|x: String| x@) =~= prev.map_values(|x: String| x@).push(
            event_text(order[j as int]),
        ));
        assert(order.subrange(0, j as int + 1).map_values(|e: (u64, Seq<char>)| event_text(e))
            =~= order.subrange(0, j as int).map_values(|e: (u64, Seq<char>)| event_text(e)).push(
            event_text(order[j as int]),
        ));
        j = j + 1;
    }
    assert(order.subrange(0, sorted.len() as int) =~= order);
    let mut s = String::new();
    push_joined(&mut s, &lines, "; ");
    assert(s@ =~= narrative_of(views));
    s
}

/// What a story with the given narrative shows.
pub fn render_narrative(narrative: &String) -> (r: &str)
    ensures
        r@ == rendered(narrative@),
{
    if narrative.as_str().unicode_len() == 0 {
        proof {
            reveal_strlit("Story not yet composed.");
        }
        "Story not yet composed."
    } else {
        narrative.as_str()
    }
}


/// Entries ordered by tick, earliest first.
pub open spec fn tick_ordered(s: Seq<(u64, Seq<char>)>) -> bool {
    forall|i: int, j: int| 0 <= i < j < s.len() ==> s[i].0 <= s[j].0
}

/// Entries in entry order: by tick, and within one tick by description.
pub open spec fn entries_ordered(s: Seq<(u64, Seq<char>)>) -> bool {
    forall|i: int, j: int| 0 <= i < j < s.len() ==> entry_le(#[trigger] s[i], #[trigger] s[j])
}

/// `part` occurs in `whole` as a contiguous piece.
pub open spec fn occurs_in(part: Seq<char>, whole: Seq<char>) -> bool {
    exists|p: int| 0 <= p && p + part.len() <= whole.len() && #[trigger] whole.subrange(p, p + part.len()) == part
}

/// Of two texts, one comes no later than the other.
pub proof fn lemma_text_le_total(a: Seq<char>, b: Seq<char>)
    ensures
        text_le(a, b) || text_le(b, a),
    decreases a.len(),
{
    if a.len() > 0 && b.len() > 0 {
        if a[0] == b[0] {
            lemma_text_le_total(a.drop_first(), b.drop_first());
        } else {
            assert((a[0] as int) != (b[0] as int));
        }
    }
}

/// Text order is transitive.
pub proof fn lemma_text_le_transitive(a: Seq<char>, b: Seq<char>, c: Seq<char>)
    requires
        text_le(a, b),
        text_le(b, c),
    ensures
        text_le(a, c),
    decreases a.len(),
{
    if a.len() > 0 && b.len() > 0 && c.len() > 0 && a[0] == b[0] && b[0] == c[0] {
        lemma_text_le_transitive(a.drop_first(), b.drop_first(), c.drop_first());
    }
}

proof fn lemma_entry_le_transitive(a: (u64, Seq<char>), b: (u64, Seq<char>), c: (u64, Seq<char>))
    requires
        entry_le(a, b),
        entry_le(b, c),
    ensures
        entry_le(a, c),
{
    if a.0 == b.0 && b.0 == c.0 {
        lemma_text_le_transitive(a.1, b.1, c.1);
    }
}

proof fn lemma_insert_ordered(sorted: Seq<(u64, Seq<char>)>, e: (u64, Seq<char>))
    requires
        entries_ordered(sorted),
    ensures
        entries_ordered(insert_ordered(sorted, e)),
        insert_ordered(sorted, e).to_multiset() =~= sorted.to_multiset().insert(e),
    decreases sorted.len(),
{
    broadcast use vstd::seq_lib::group_seq_properties;

    let r = insert_ordered(sorted, e);
    if sorted.len() == 0 {
        assert(r =~= Seq::<(u64, Seq<char>)>::empty().push(e));
        assert(sorted =~= Seq::<(u64, Seq<char>)>::empty());
    } else if entry_le(sorted.last(), e) {
        let n = sorted.len() - 1;
        assert forall|i: int, j: int| 0 <= i < j < r.len() implies entry_le(
            #[trigger] r[i],
            #[trigger] r[j],
        ) by {
            if j == r.len() - 1 && i < n {
                assert(entry_le(sorted[i], sorted[n]));
                lemma_entry_le_transitive(sorted[i], sorted[n], e);
            }
        }
    } else {
        let init = sorted.drop_last();
        let last = sorted.last();
        assert(sorted =~= init.push(last));
        lemma_text_le_total(last.1, e.1);
        assert(entry_le(e, last));
        assert(entries_ordered(init)) by {
            assert forall|i: int, j: int| 0 <= i < j < init.len() implies entry_le(
                #[trigger] init[i],
                #[trigger] init[j],
            ) by {
                assert(init[i] == sorted[i] && init[j] == sorted[j]);
            }
        }
        let rec = insert_ordered(init, e);
        lemma_insert_ordered(init, e);
        assert(r == rec.push(last));
        assert forall|i: int| 0 <= i < rec.len() implies entry_le(#[trigger] rec[i], last) by {
            assert(rec.to_multiset().count(rec[i]) > 0);
            if rec[i] != e {
                assert(init.to_multiset().count(rec[i]) > 0);
                assert(init.contains(rec[i]));
                let j = choose|j: int| 0 <= j < init.len() && init[j] == rec[i];
                assert(sorted[j] == init[j]);
                assert(entry_le(sorted[j], sorted[sorted.len() - 1]));
            }
        }
        assert forall|i: int, j: int| 0 <= i < j < r.len() implies entry_le(
            #[trigger] r[i],
            #[trigger] r[j],
        ) by {
            if j < rec.len() {
                assert(r[i] == rec[i] && r[j] == rec[j]);
            } else {
                assert(r[i] == rec[i]);
            }
        }
    }
}

/// Ordering the entries puts them in tick order, and within one tick in text
/// order of their descriptions, and keeps every entry (as many times as it
/// occurs): it is a sorting of the timeline.
pub proof fn lemma_sort_entries(s: Seq<(u64, Seq<char>)>)
    ensures
        entries_ordered(sort_entries(s)),
        tick_ordered(sort_entries(s)),
        sort_entries(s).to_multiset() =~= s.to_multiset(),
    decreases s.len(),
{
    broadcast use vstd::seq_lib::group_seq_properties;

    if s.len() > 0 {
        let init = s.drop_last();
        lemma_sort_entries(init);
        lemma_insert_ordered(sort_entries(init), s.last());
        assert(s =~= init.push(s.last()));
    }
    let r = sort_entries(s);
    assert forall|i: int, j: int| 0 <= i < j < r.len() implies r[i].0 <= r[j].0 by {
        assert(entry_le(r[i], r[j]));
    }
}

proof fn lemma_occurs_at(part: Seq<char>, whole: Seq<char>, p: int)
    requires
        0 <= p,
        p + part.len() <= whole.len(),
        whole.subrange(p, p + part.len()) =~= part,
    ensures
        occurs_in(part, whole),
{
}

proof fn lemma_occurs_within(a: Seq<char>, b: Seq<char>, c: Seq<char>)
    requires
        occurs_in(a, b),
        occurs_in(b, c),
    ensures
        occurs_in(a, c),
{
    let p = choose|p: int| 0 <= p && p + a.len() <= b.len() && #[trigger] b.subrange(p, p + a.len()) == a;
    let q = choose|q: int| 0 <= q && q + b.len() <= c.len() && #[trigger] c.subrange(q, q + b.len()) == b;
    assert(c.subrange(q + p, q + p + a.len()) =~= a);
    lemma_occurs_at(a, c, q + p);
}

proof fn lemma_joined_holds_item(items: Seq<Seq<char>>, sep: Seq<char>, j: int)
    requires
        0 <= j < items.len(),
    ensures
        occurs_in(items[j], joined(items, sep)),
    decreases items.len(),
{
    let whole = joined(items, sep);
    if items.len() == 1 {
        lemma_occurs_at(items[j], whole, 0);
    } else if j == items.len() - 1 {
        let front = joined(items.drop_last(), sep) + sep;
        assert(whole.subrange(front.len() as int, (front.len() + items[j].len()) as int) =~= items[j]);
        lemma_occurs_at(items[j], whole, front.len() as int);
    } else {
        lemma_joined_holds_item(items.drop_last(), sep, j);
        let inner = joined(items.drop_last(), sep);
        assert(whole.subrange(0, inner.len() as int) =~= inner);
        lemma_occurs_at(inner, whole, 0);
        lemma_occurs_within(items[j], inner, whole);
    }
}

/// The narrative of a timeline tells every event of it: each description
/// occurs in the narrative.
pub proof fn lemma_narrative_tells_every_event(timeline: Seq<(u64, Seq<char>)>, i: int)
    requires
        0 <= i < timeline.len(),
    ensures
        occurs_in(timeline[i].1, narrative_of(timeline)),
{
    broadcast use vstd::seq_lib::group_seq_properties;

    let sorted = sort_entries(timeline);
    lemma_sort_entries(timeline);
    let e = timeline[i];
    assert(timeline.to_multiset().count(e) > 0);
    assert(sorted.to_multiset().count(e) > 0);
    assert(sorted.contains(e));
    let j = choose|j: int| 0 <= j < sorted.len() && sorted[j] == e;
    let items = sorted.map_values(|x: (u64, Seq<char>)| event_text(x));
    lemma_joined_holds_item(items, "; "@, j);
    let line = event_text(e);
    let off: int = (3 + decimal(e.0 as nat).len() + 2) as int;
    reveal_strlit("[t=");
    reveal_strlit("] ");
    assert(line.subrange(off, off + e.1.len() as int) =~= e.1);
    lemma_occurs_at(e.1, line, off);
    lemma_occurs_within(e.1, line, narrative_of(timeline));
}

/// Rendering a story that has a narrative shows exactly that narrative,
/// nothing cut and nothing added; only a story without one shows the
/// placeholder.
pub proof fn lemma_render_shows_narrative(narrative: Seq<char>)
    ensures
        narrative.len() > 0 ==> rendered(narrative) == narrative,
        narrative.len() == 0 ==> rendered(narrative) == "Story not yet composed."@,
{
}

/// A composed story renders as its whole narrative, so every event of its
/// timeline occurs in what the story shows.
pub proof fn lemma_composed_story_shows_every_event(timeline: Seq<(u64, Seq<char>)>)
    ensures
        rendered(narrative_of(timeline)) == narrative_of(timeline),
        forall|i: int| 0 <= i < timeline.len() ==> occurs_in(
            #[trigger] timeline[i].1,
            rendered(narrative_of(timeline)),
        ),
{
    let n = narrative_of(timeline);
    if timeline.len() == 0 {
        reveal_strlit("No events recorded.");
        assert(n.len() > 0);
    } else {
        lemma_narrative_tells_every_event(timeline, 0);
        let e = timeline[0];
        reveal_strlit("[t=");
        let sorted = sort_entries(timeline);
        lemma_sort_entries(timeline);
        assert(sorted.len() == timeline.len()) by {
            assert(sorted.to_multiset().len() == timeline.to_multiset().len());
            broadcast use vstd::seq_lib::group_seq_properties;
        }
        let items = sorted.map_values(|x: (u64, Seq<char>)| event_text(x));
        lemma_joined_holds_item(items, "; "@, 0);
        assert(items[0].len() >= 3);
        assert(n.len() > 0);
    }
    assert forall|i: int| 0 <= i < timeline.len() implies occurs_in(
        #[trigger] timeline[i].1,
        rendered(narrative_of(timeline)),
    ) by {
        lemma_narrative_tells_every_event(timeline, i);
    }
}

proof fn lemma_sort_single(e: (u64, Seq<char>))
    ensures
        sort_entries(seq![e]) == seq![e],
{
    let s = seq![e];
    let empty = Seq::<(u64, Seq<char>)>::empty();
    assert(s.drop_last() =~= empty);
    assert(sort_entries(empty) == empty);
    assert(insert_ordered(empty, e) =~= seq![e]);
    assert(sort_entries(s) == insert_ordered(sort_entries(s.drop_last()), s.last()));
}

/// A timeline of one event narrates it as `[t=TICK] description`.
pub proof fn lemma_narrative_of_one_event(e: (u64, Seq<char>))
    ensures
        narrative_of(seq![e]) == "[t="@ + decimal(e.0 as nat) + "] "@ + e.1,
{
    let s = seq![e];
    lemma_sort_single(e);
    assert(sort_entries(s).map_values(|x: (u64, Seq<char>)| event_text(x)) =~= seq![event_text(e)]);
}

/// Two events narrate as the earlier one (by tick, then description), `; `,
/// then the later one.
pub proof fn lemma_narrative_of_two_events(a: (u64, Seq<char>), b: (u64, Seq<char>))
    requires
        a.0 < b.0 || (a.0 == b.0 && text_le(a.1, b.1)),
    ensures
        narrative_of(seq![a, b]) == "[t="@ + decimal(a.0 as nat) + "] "@ + a.1 + "; "@ + "[t="@
            + decimal(b.0 as nat) + "] "@ + b.1,
        narrative_of(seq![b, a]) == narrative_of(seq![a, b]),
{
    let ab = seq![a, b];
    let ba = seq![b, a];
    assert(ab.drop_last() =~= seq![a]);
    assert(ba.drop_last() =~= seq![b]);
    assert(seq![a].drop_last() =~= Seq::<(u64, Seq<char>)>::empty());
    assert(seq![b].drop_last() =~= Seq::<(u64, Seq<char>)>::empty());
    lemma_sort_single(a);
    lemma_sort_single(b);
    assert(sort_entries(ab) =~= seq![a, b]);
    if b.0 == a.0 && text_le(b.1, a.1) && b != a {
        lemma_text_le_antisymmetric(a.1, b.1);
    }
    assert(insert_ordered(seq![b], a) =~= seq![a, b]) by {
        assert(seq![b].drop_last() =~= Seq::<(u64, Seq<char>)>::empty());
        assert(insert_ordered(Seq::<(u64, Seq<char>)>::empty(), a) =~= seq![a]);
        if entry_le(b, a) {
            assert(b == a);
        }
    }
    assert(sort_entries(ba) =~= seq![a, b]);
    let items = seq![event_text(a), event_text(b)];
    assert(sort_entries(ab).map_values(|x: (u64, Seq<char>)| event_text(x)) =~= items);
    assert(items.drop_last() =~= seq![event_text(a)]);
    assert(joined(seq![event_text(a)], "; "@) == event_text(a));
    assert(joined(items, "; "@) =~= "[t="@ + decimal(a.0 as nat) + "] "@ + a.1 + "; "@ + "[t="@
        + decimal(b.0 as nat) + "] "@ + b.1);
}

/// Texts that each come no later than the other are the same text.
pub proof fn lemma_text_le_antisymmetric(a: Seq<char>, b: Seq<char>)
    requires
        text_le(a, b),
        text_le(b, a),
    ensures
        a == b,
    decreases a.len(),
{
    if a.len() > 0 && b.len() > 0 {
        if a[0] == b[0] {
            lemma_text_le_antisymmetric(a.drop_first(), b.drop_first());
            assert(a =~= seq![a[0]] + a.drop_first());
            assert(b =~= seq![b[0]] + b.drop_first());
        }
    } else {
        assert(a.len() == 0 && b.len() == 0);
        assert(a =~= b);
    }
}

} // verus!
