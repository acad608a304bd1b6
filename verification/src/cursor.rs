//! The cursor: the most recent `received_at` that was processed. It is kept
//! across restarts, so that a new stream asks for what came after it.

use vstd::prelude::*;

use crate::text::trim;
use crate::time::Timestamp;
use crate::time;

verus! {

/// The most recent `received_at` that was processed, if there is one.
pub struct Cursor {
    pub last_received_at: Option<Timestamp>,
}

/// The cursor that a file with these contents stands for; no contents are a file
/// that could not be read.
pub open spec fn loaded(contents: Option<Seq<char>>) -> Option<Timestamp> {
    match contents {
        None => None,
        Some(s) => match time::rfc3339_instant(crate::text::trimmed(s)) {
            Some(instant) => Some(Timestamp::at(instant)),
            None => None,
        },
    }
}

/// Whether `ts` moves a cursor that stands at `last`.
pub open spec fn moves(last: Option<Timestamp>, ts: Timestamp) -> bool {
    match last {
        Some(current) => !ts.not_after_spec(current),
        None => true,
    }
}

/// Where a cursor at `last` stands once `ts` has been processed.
pub open spec fn advanced(last: Option<Timestamp>, ts: Timestamp) -> Option<Timestamp> {
    if moves(last, ts) {
        Some(ts)
    } else {
        last
    }
}

/// Where a cursor at `last` stands once all of `seen` has been processed.
pub open spec fn advanced_by(last: Option<Timestamp>, seen: Seq<Timestamp>) -> Option<Timestamp>
    decreases seen.len(),
{
    if seen.len() == 0 {
        last
    } else {
        advanced(advanced_by(last, seen.drop_last()), seen.last())
    }
}

impl Cursor {
    /// A cursor stands at an instant that the calendar knows.
    pub open spec fn wf(self) -> bool {
        self.last_received_at matches Some(t) ==> t.wf()
    }

    /// The cursor that a file with these contents stands for; no contents are a
    /// file that could not be read.
    pub fn load(contents: Option<&str>) -> (r: Cursor)
        ensures
            r.wf(),
            r.last_received_at == loaded(
                match contents {
                    Some(s) => Some(s@),
                    None => None,
                },
            ),
    {
        let last_received_at: Option<Timestamp> = match contents {
            None => None,
            Some(s) => match time::parse_rfc3339(trim(s)) {
                Ok(t) => Some(t),
                Err(_) => None,
            },
        };
        Cursor { last_received_at }
    }

    /// Where the cursor stands.
    pub fn get(&self) -> (r: Option<Timestamp>)
        ensures
            r == self.last_received_at,
    {
        self.last_received_at
    }

    /// Moves the cursor to `ts` if that is later, and returns the text to be kept
    /// if it moved. Loading that text gives the same cursor again, unless the
    /// year has no four digits.
    pub fn update(&mut self, ts: Timestamp) -> (r: Option<String>)
        requires
            old(self).wf(),
            ts.wf(),
        ensures
            final(self).wf(),
            final(self).last_received_at == advanced(old(self).last_received_at, ts),
            match r {
                Some(text) => {
                    &&& moves(old(self).last_received_at, ts)
                    &&& text@ == time::rfc3339_text(ts.secs, ts.nanos)
                    &&& ts.has_four_digit_year() ==> loaded(Some(text@))
                        == final(self).last_received_at
                },
                None => !moves(old(self).last_received_at, ts),
            },
    {
        let newer: bool = match &self.last_received_at {
            Some(current) => !ts.not_after(current),
            None => true,
        };
        if !newer {
            return None;
        }
        self.last_received_at = Some(ts);
        let text: String = time::to_rfc3339(&ts);
        proof {
            crate::text::lemma_trimmed_of_bare(text@);
        }
        Some(text)
    }
}

/// The cursor never goes back: after `ts` it stands at `ts` or later, and at
/// where it stood or later.
pub proof fn law_cursor_never_goes_back(last: Option<Timestamp>, ts: Timestamp)
    ensures
        advanced(last, ts) matches Some(t) && ts.not_after_spec(t),
        last matches Some(before) ==> advanced(last, ts) matches Some(t) && before.not_after_spec(
            t,
        ),
{
}

/// Processing an uplink again leaves the cursor where it is.
pub proof fn law_cursor_is_idempotent(last: Option<Timestamp>, ts: Timestamp)
    ensures
        advanced(advanced(last, ts), ts) == advanced(last, ts),
        !moves(advanced(last, ts), ts),
{
}

/// The order in which two uplinks are processed does not matter to the cursor.
pub proof fn law_cursor_ignores_order(last: Option<Timestamp>, a: Timestamp, b: Timestamp)
    ensures
        advanced(advanced(last, a), b) == advanced(advanced(last, b), a),
{
}

/// However many uplinks are processed, the cursor stands at the latest of them
/// and of where it stood: it is one of these, and none of these is later.
pub proof fn law_cursor_is_the_latest(last: Option<Timestamp>, seen: Seq<Timestamp>)
    ensures
        advanced_by(last, seen) == last || (advanced_by(last, seen) matches Some(t)
            && seen.contains(t)),
        forall|i: int|
            0 <= i < seen.len() ==> (advanced_by(last, seen) matches Some(t)
                && (#[trigger] seen[i]).not_after_spec(t)),
        last matches Some(before) ==> advanced_by(last, seen) matches Some(t)
            && before.not_after_spec(t),
    decreases seen.len(),
{
    if seen.len() > 0 {
        let init = seen.drop_last();
        law_cursor_is_the_latest(last, init);
        assert(seen.last() == seen[seen.len() - 1]);
        if let Some(t) = advanced_by(last, init) {
            if init.contains(t) {
                let k = choose|k: int| 0 <= k < init.len() && init[k] == t;
                assert(seen[k] == t);
            }
        }
        assert forall|i: int| 0 <= i < seen.len() implies (advanced_by(last, seen) matches Some(t)
            && (#[trigger] seen[i]).not_after_spec(t)) by {
            if i < init.len() {
                assert(init[i] == seen[i]);
            }
        }
    }
}

/// A file's cursor is what its text denotes, whatever white space is around it; a
/// file that could not be read, or whose text denotes no instant, gives none; blank text is
/// taken as empty.
pub proof fn law_white_space_around_a_cursor_is_ignored(
    a: Seq<char>,
    text: Seq<char>,
    b: Seq<char>,
)
    requires
        crate::text::is_blank(a),
        crate::text::is_blank(b),
        crate::text::is_bare(text),
    ensures
        loaded(None) is None,
        match time::rfc3339_instant(text) {
            Some((secs, nanos)) => loaded(Some(a + text + b)) == Some(Timestamp { secs, nanos }),
            None => loaded(Some(a + text + b)) is None,
        },
        match time::rfc3339_instant(Seq::empty()) {
            Some((secs, nanos)) => loaded(Some(a)) == Some(Timestamp { secs, nanos }),
            None => loaded(Some(a)) is None,
        },
{
    crate::text::law_trimming_frees_the_text(a, text, b);
}

/// A cursor is moved exactly where it changes, and then to the later instant: the
/// first uplink always moves it, and any other if and only if it is later.
pub proof fn law_cursor_moves_to_what_is_later(last: Option<Timestamp>, ts: Timestamp)
    ensures
        moves(last, ts) <==> advanced(last, ts) != last,
        moves(None, ts),
        last matches Some(t) ==> (moves(last, ts) <==> t.secs < ts.secs || (t.secs == ts.secs
            && t.nanos < ts.nanos)),
        moves(last, ts) ==> advanced(last, ts) == Some(ts),
{
}

/// A run of uplinks moves the cursor as its parts do, one behind the other.
pub proof fn law_runs_of_uplinks_add_up(
    last: Option<Timestamp>,
    a: Seq<Timestamp>,
    ts: Timestamp,
)
    ensures
        advanced_by(last, Seq::empty()) == last,
        advanced_by(last, a.push(ts)) == advanced(advanced_by(last, a), ts),
{
    assert(a.push(ts).drop_last() == a);
}

} // verus!
