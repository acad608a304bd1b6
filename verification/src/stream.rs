//! The stream of stored uplinks: what is asked for, and how the answer is cut
//! into the JSON texts that it carries.

use vstd::prelude::*;
use vstd::string::StringExecFns;
use vstd::string::StrSliceExecFns;

use crate::text::from_utf8_lossy;
use crate::text::starts_with;
use crate::text::trim;
use crate::time::Timestamp;
use crate::time;

verus! {

broadcast use vstd::string::group_string_axioms;

/// How many characters of an unreadable text are shown.
pub const SHOWN_CHARS: usize = 100;

/// A parameter of the query.
pub struct Parameter {
    pub name: String,
    pub value: String,
}

impl View for Parameter {
    type V = (Seq<char>, Seq<char>);

    open spec fn view(&self) -> (Seq<char>, Seq<char>) {
        (self.name@, self.value@)
    }
}

/// The address of an application's stored uplinks.
pub open spec fn stream_url_spec(region: Seq<char>, app_id: Seq<char>) -> Seq<char> {
    "https://"@ + region + ".cloud.thethings.network/api/v3/as/applications/"@ + app_id
        + "/packages/storage/uplink_message"@
}

/// The members of an uplink that are asked for.
pub open spec fn field_mask() -> Seq<char> {
    "up.uplink_message.f_cnt"@ + ","@ + "up.uplink_message.decoded_payload"@ + ","@
        + "up.uplink_message.rx_metadata"@ + ","@ + "up.uplink_message.settings"@
}

/// The query: what came after the cursor, or in the last day where there is
/// none, and of that the members that are read.
pub open spec fn stream_query_spec(cursor: Option<Timestamp>) -> Seq<(Seq<char>, Seq<char>)> {
    let span = match cursor {
        Some(t) => ("after"@, time::rfc3339_text(t.secs, t.nanos)),
        None => ("last"@, "24h"@),
    };
    seq![span, ("field_mask"@, field_mask())]
}

/// The lines of `s` that are complete, without their newlines, and what follows
/// the last newline.
pub open spec fn split_lines(s: Seq<char>) -> (Seq<Seq<char>>, Seq<char>)
    decreases s.len(),
{
    if s.len() == 0 {
        (Seq::empty(), Seq::empty())
    } else {
        let (lines, rest) = split_lines(s.drop_last());
        if s.last() == '\n' {
            (lines.push(rest), Seq::empty())
        } else {
            (lines, rest.push(s.last()))
        }
    }
}

/// The lines of `s` that are complete, without their newlines.
pub open spec fn complete_lines(s: Seq<char>) -> Seq<Seq<char>> {
    split_lines(s).0
}

/// What follows the last newline of `s`.
pub open spec fn remainder(s: Seq<char>) -> Seq<char> {
    split_lines(s).1
}

/// The JSON text on a line: the line without a `data:` in front and without white
/// space at its ends, if anything is left.
pub open spec fn payload_of(line: Seq<char>) -> Option<Seq<char>> {
    let bare = crate::text::trimmed(line);
    let json = if crate::text::has_prefix(bare, "data:"@) {
        crate::text::trimmed(bare.skip("data:"@.len() as int))
    } else {
        bare
    };
    if json.len() == 0 {
        None
    } else {
        Some(json)
    }
}

/// The JSON texts on the lines, in their order.
pub open spec fn payloads_of(lines: Seq<Seq<char>>) -> Seq<Seq<char>>
    decreases lines.len(),
{
    if lines.len() == 0 {
        Seq::empty()
    } else {
        let before = payloads_of(lines.drop_last());
        match payload_of(lines.last()) {
            Some(json) => before.push(json),
            None => before,
        }
    }
}

/// What each of the strings holds.
pub open spec fn string_views(strings: Seq<String>) -> Seq<Seq<char>> {
    strings.map_values(|s: String| s@)
}

/// The address of an application's stored uplinks.
pub fn stream_url(region: &str, app_id: &str) -> (r: String)
    ensures
        r@ == stream_url_spec(region@, app_id@),
{
    let mut url: String = "https://".to_owned();
    url.append(region);
    url.append(".cloud.thethings.network/api/v3/as/applications/");
    url.append(app_id);
    url.append("/packages/storage/uplink_message");
    url
}

/// The value of the header that carries the key.
pub fn authorization(api_key: &str) -> (r: String)
    ensures
        r@ == "Bearer "@ + api_key@,
{
    let mut value: String = "Bearer ".to_owned();
    value.append(api_key);
    value
}

/// The query for a stream that begins after the instant that `after` denotes, or
/// a day ago where there is none.
pub fn query_after(after: Option<&str>) -> (r: Vec<Parameter>)
    ensures
        r@.len() == 2,
        r@[0]@ == (match after {
            Some(text) => ("after"@, text@),
            None => ("last"@, "24h"@),
        }),
        r@[1]@ == ("field_mask"@, field_mask()),
{
    let span: Parameter = match after {
        Some(text) => Parameter { name: "after".to_owned(), value: text.to_owned() },
        None => Parameter { name: "last".to_owned(), value: "24h".to_owned() },
    };
    let mut mask: String = "up.uplink_message.f_cnt".to_owned();
    mask.append(",");
    mask.append("up.uplink_message.decoded_payload");
    mask.append(",");
    mask.append("up.uplink_message.rx_metadata");
    mask.append(",");
    mask.append("up.uplink_message.settings");
    vec![span, Parameter { name: "field_mask".to_owned(), value: mask }]
}

/// The query for a stream that begins at the cursor. The text that it gives for
/// the cursor denotes the cursor's instant, unless the year has no four digits.
pub fn stream_query(cursor: Option<Timestamp>) -> (r: Vec<Parameter>)
    requires
        cursor matches Some(t) ==> t.wf(),
    ensures
        r@.map_values(|p: Parameter| p@) == stream_query_spec(cursor),
        cursor matches Some(t) ==> t.has_four_digit_year() ==> time::rfc3339_instant(r@[0].value@)
            == Some((t.secs, t.nanos)),
{
    let query: Vec<Parameter> = match cursor {
        Some(t) => {
            let after: String = time::to_rfc3339(&t);
            query_after(Some(after.as_str()))
        },
        None => query_after(None),
    };
    assert(query@.map_values(|p: Parameter| p@) =~= stream_query_spec(cursor));
    query
}

/// The JSON text on a line.
pub fn payload(line: &str) -> (r: Option<String>)
    ensures
        match r {
            Some(json) => payload_of(line@) == Some(json@),
            None => payload_of(line@) is None,
        },
{
    proof {
        reveal_strlit("data:");
    }
    let bare: &str = trim(line);
    let json: &str = if starts_with(bare, "data:") {
        let n: usize = bare.unicode_len();
        assert(bare@.subrange(5, n as int) == bare@.skip(5));
        trim(bare.substring_char(5, n))
    } else {
        bare
    };
    if json.is_empty() {
        None
    } else {
        Some(json.to_owned())
    }
}

/// What is shown of a text that is no uplink: nothing for a comment, which keeps
/// the stream alive, and else its beginning.
pub fn unreadable_note(json: &str) -> (r: Option<String>)
    ensures
        match r {
            Some(note) => !crate::text::has_prefix(json@, ":"@) && note@ == json@.take(
                if json@.len() < SHOWN_CHARS {
                    json@.len() as int
                } else {
                    SHOWN_CHARS as int
                },
            ),
            None => crate::text::has_prefix(json@, ":"@),
        },
{
    if starts_with(json, ":") {
        None
    } else {
        let n: usize = json.unicode_len();
        let shown: usize = if n < SHOWN_CHARS {
            n
        } else {
            SHOWN_CHARS
        };
        Some(json.substring_char(0, shown).to_owned())
    }
}

/// What happens to a stream.
pub enum StreamEvent {
    /// The server answered at `now`, with the body of a refusal if that could be
    /// read.
    Answered { success: bool, status: String, body: Option<String>, now: u64 },
    /// Bytes arrived.
    Chunk { bytes: Vec<u8> },
    /// The connection broke.
    Broken { error: String },
    /// The server closed the stream.
    Ended,
}

/// What is to be done next.
pub enum StreamAction {
    /// Read on.
    Read,
    /// Process the JSON texts in their order, and read on.
    Deliver { payloads: Vec<String> },
    /// Give the stream up, with a message.
    Fail { message: String },
    /// The stream is over.
    Finish,
}

/// A stream: what arrived of the line that is not complete yet, and when the
/// server accepted the request.
pub struct StreamSession {
    pub pending: String,
    pub connected_at: Option<u64>,
}

impl StreamSession {
    /// A stream that has not been answered.
    pub fn new() -> (r: StreamSession)
        ensures
            r.pending@ == Seq::<char>::empty(),
            r.connected_at is None,
    {
        StreamSession { pending: String::new(), connected_at: None }
    }

    /// Takes in text, and returns the JSON texts of the lines that are complete
    /// now. The rest waits for more.
    pub fn receive(&mut self, text: &str) -> (r: Vec<String>)
        ensures
            final(self).connected_at == old(self).connected_at,
            final(self).pending@ == remainder(old(self).pending@ + text@),
            string_views(r@) == payloads_of(complete_lines(old(self).pending@ + text@)),
    {
        let mut all: String = self.pending.clone();
        all.append(text);
        let all_str: &str = all.as_str();
        let ghost s = all@;
        let n: usize = all_str.unicode_len();
        let mut out: Vec<String> = Vec::new();
        let mut start: usize = 0;
        let mut i: usize = 0;
        for c in it: all_str.chars()
            invariant
                it.seq() == s,
                s == all_str@,
                n == s.len(),
                i == it.index(),
                start <= i <= n,
                remainder(s.take(i as int)) == s.subrange(start as int, i as int),
                string_views(out@) == payloads_of(complete_lines(s.take(i as int))),
        {
            proof {
                assert(s.take(i + 1).drop_last() == s.take(i as int));
                assert(s.take(i + 1).last() == c);
            }
            if c == '\n' {
                proof {
                    let lines = complete_lines(s.take(i + 1));
                    assert(lines.drop_last() == complete_lines(s.take(i as int)));
                    assert(lines.last() == s.subrange(start as int, i as int));
                }
                if let Some(json) = payload(all_str.substring_char(start, i)) {
                    assert(string_views(out@.push(json)) == string_views(out@).push(json@));
                    out.push(json);
                }
                start = i + 1;
                assert(s.subrange(start as int, i + 1) == Seq::<char>::empty());
            } else {
                assert(s.subrange(start as int, i + 1) == s.subrange(start as int, i as int).push(
                    c,
                ));
            }
            i = i + 1;
        }
        assert(s.take(n as int) == s);
        self.pending = all_str.substring_char(start, n).to_owned();
        out
    }

    /// What is to be done after an event. Bytes that are UTF-8 are taken for the
    /// text that they encode, and what is no UTF-8 is replaced.
    pub fn step(&mut self, event: StreamEvent) -> (r: StreamAction)
        ensures
            match event {
                StreamEvent::Answered { success, status, body, now } => {
                    &&& final(self).pending@ == old(self).pending@
                    &&& if success {
                        &&& final(self).connected_at == Some(now)
                        &&& r is Read
                    } else {
                        &&& final(self).connected_at == old(self).connected_at
                        &&& r matches StreamAction::Fail { message } && message@
                            == "TTN API returned status "@ + status@ + ": "@ + (match body {
                            Some(b) => b@,
                            None => "<failed to read body>"@,
                        })
                    }
                },
                StreamEvent::Chunk { bytes } => {
                    let arrived = old(self).pending@ + crate::text::lossy_text(bytes@);
                    &&& vstd::utf8::valid_utf8(bytes@) ==> crate::text::lossy_text(bytes@)
                        == vstd::utf8::decode_utf8(bytes@)
                    &&& final(self).connected_at == old(self).connected_at
                    &&& final(self).pending@ == remainder(arrived)
                    &&& r matches StreamAction::Deliver { payloads } && string_views(payloads@)
                        == payloads_of(complete_lines(arrived))
                },
                StreamEvent::Broken { error } => {
                    &&& *final(self) == *old(self)
                    &&& r matches StreamAction::Fail { message } && message@
                        == "Stream interrupted: "@ + error@
                },
                StreamEvent::Ended => {
                    &&& *final(self) == *old(self)
                    &&& r is Finish
                },
            },
    {
        match event {
            StreamEvent::Answered { success, status, body, now } => {
                if success {
                    self.connected_at = Some(now);
                    StreamAction::Read
                } else {
                    let mut message: String = "TTN API returned status ".to_owned();
                    message.append(status.as_str());
                    message.append(": ");
                    match body {
                        Some(b) => message.append(b.as_str()),
                        None => message.append("<failed to read body>"),
                    }
                    StreamAction::Fail { message }
                }
            },
            StreamEvent::Chunk { bytes } => {
                let text: String = from_utf8_lossy(bytes.as_slice());
                StreamAction::Deliver { payloads: self.receive(text.as_str()) }
            },
            StreamEvent::Broken { error } => {
                let mut message: String = "Stream interrupted: ".to_owned();
                message.append(error.as_str());
                StreamAction::Fail { message }
            },
            StreamEvent::Ended => StreamAction::Finish,
        }
    }
}

/// What follows the last newline is one unfinished line.
proof fn lemma_remainder_is_unfinished(s: Seq<char>)
    ensures
        !remainder(s).contains('\n'),
        forall|i: int|
            0 <= i < complete_lines(s).len() ==> !(#[trigger] complete_lines(s)[i]).contains('\n'),
    decreases s.len(),
{
    if s.len() > 0 {
        lemma_remainder_is_unfinished(s.drop_last());
        let rest = remainder(s.drop_last());
        if s.last() != '\n' {
            assert forall|i: int| 0 <= i < rest.push(s.last()).len() implies rest.push(s.last())[i]
                != '\n' by {
                if i < rest.len() {
                    assert(rest.contains(rest[i]));
                }
            }
        }
        let lines = complete_lines(s.drop_last());
        assert forall|i: int| 0 <= i < complete_lines(s).len() implies !(
        #[trigger] complete_lines(s)[i]).contains('\n') by {
            if i < lines.len() {
                assert(complete_lines(s)[i] == lines[i]);
            }
        }
    }
}

/// Text without a newline has no complete line.
proof fn lemma_split_unfinished(s: Seq<char>)
    requires
        !s.contains('\n'),
    ensures
        complete_lines(s) == Seq::<Seq<char>>::empty(),
        remainder(s) == s,
    decreases s.len(),
{
    if s.len() > 0 {
        assert(s.contains(s.last()));
        assert forall|i: int| 0 <= i < s.drop_last().len() implies s.drop_last()[i] != '\n' by {
            assert(s.contains(s[i]));
        }
        lemma_split_unfinished(s.drop_last());
        assert(s.drop_last().push(s.last()) == s);
    }
}

/// Text that follows is split behind what was left over.
proof fn lemma_split_append(s: Seq<char>, t: Seq<char>)
    ensures
        complete_lines(s + t) == complete_lines(s) + complete_lines(remainder(s) + t),
        remainder(s + t) == remainder(remainder(s) + t),
    decreases t.len(),
{
    if t.len() == 0 {
        assert(s + t == s);
        assert(remainder(s) + t == remainder(s));
        lemma_remainder_is_unfinished(s);
        lemma_split_unfinished(remainder(s));
    } else {
        lemma_split_append(s, t.drop_last());
        assert((s + t).drop_last() == s + t.drop_last());
        assert((remainder(s) + t).drop_last() == remainder(s) + t.drop_last());
        if t.last() == '\n' {
            assert(complete_lines(s + t) == complete_lines(s) + complete_lines(remainder(s) + t));
        }
    }
}

/// The JSON texts of two runs of lines are those of the one and then the other.
proof fn lemma_payloads_append(a: Seq<Seq<char>>, b: Seq<Seq<char>>)
    ensures
        payloads_of(a + b) == payloads_of(a) + payloads_of(b),
    decreases b.len(),
{
    if b.len() == 0 {
        assert(a + b == a);
    } else {
        assert((a + b).drop_last() == a + b.drop_last());
        lemma_payloads_append(a, b.drop_last());
    }
}

/// How text is cut into chunks does not matter: receiving `a` and then `b` gives
/// the JSON texts, and leaves over what receiving both at once does.
pub proof fn law_chunks_do_not_matter(pending: Seq<char>, a: Seq<char>, b: Seq<char>)
    ensures
        payloads_of(complete_lines(pending + (a + b))) == payloads_of(complete_lines(pending + a))
            + payloads_of(complete_lines(remainder(pending + a) + b)),
        remainder(pending + (a + b)) == remainder(remainder(pending + a) + b),
{
    assert(pending + (a + b) == (pending + a) + b);
    lemma_split_append(pending + a, b);
    lemma_payloads_append(
        complete_lines(pending + a),
        complete_lines(remainder(pending + a) + b),
    );
}

/// How bytes are cut into chunks does not matter, as long as no character is cut:
/// the UTF-8 of `a` and then that of `b` give the JSON texts, and leave over what
/// both at once do.
pub proof fn law_byte_chunks_do_not_matter(pending: Seq<char>, a: Seq<u8>, b: Seq<u8>)
    requires
        vstd::utf8::valid_utf8(a),
        vstd::utf8::valid_utf8(b),
    ensures
        vstd::utf8::valid_utf8(a + b),
        ({
            let first = pending + vstd::utf8::decode_utf8(a);
            let second = remainder(first) + vstd::utf8::decode_utf8(b);
            let whole = pending + vstd::utf8::decode_utf8(a + b);
            &&& payloads_of(complete_lines(whole)) == payloads_of(complete_lines(first))
                + payloads_of(complete_lines(second))
            &&& remainder(whole) == remainder(second)
        }),
{
    crate::text::lemma_decode_append(a, b);
    law_chunks_do_not_matter(
        pending,
        vstd::utf8::decode_utf8(a),
        vstd::utf8::decode_utf8(b),
    );
}

/// The lines, each with its newline behind it.
pub open spec fn terminated(lines: Seq<Seq<char>>) -> Seq<char>
    decreases lines.len(),
{
    if lines.len() == 0 {
        Seq::empty()
    } else {
        terminated(lines.drop_last()) + lines.last().push('\n')
    }
}

/// Nothing is lost and nothing is cut: the lines with their newlines and what is
/// left over make up the text, and neither holds a newline.
pub proof fn law_lines_make_up_the_text(s: Seq<char>)
    ensures
        terminated(complete_lines(s)) + remainder(s) == s,
        !remainder(s).contains('\n'),
        forall|i: int|
            0 <= i < complete_lines(s).len() ==> !(#[trigger] complete_lines(s)[i]).contains('\n'),
    decreases s.len(),
{
    lemma_remainder_is_unfinished(s);
    if s.len() > 0 {
        law_lines_make_up_the_text(s.drop_last());
        let lines = complete_lines(s.drop_last());
        let rest = remainder(s.drop_last());
        assert(s == s.drop_last().push(s.last()));
        if s.last() == '\n' {
            assert(complete_lines(s).drop_last() == lines);
            assert(terminated(complete_lines(s)) == terminated(lines) + rest.push('\n'));
            assert(terminated(lines) + rest.push('\n') == (terminated(lines) + rest).push('\n'));
            assert(terminated(complete_lines(s)) + Seq::<char>::empty() == s);
        } else {
            assert(terminated(lines) + rest.push(s.last()) == (terminated(lines) + rest).push(
                s.last(),
            ));
        }
    }
}

/// A JSON text that is delivered is not empty and has no white space at its ends.
pub proof fn law_payloads_are_bare(line: Seq<char>)
    ensures
        payload_of(line) matches Some(json) ==> {
            &&& json.len() > 0
            &&& crate::text::trimmed(json) == json
        },
{
    crate::text::law_trimmed_is_bare(line);
    let bare = crate::text::trimmed(line);
    crate::text::law_trimmed_is_bare(bare.skip("data:"@.len() as int));
}

/// The `data:` of an event stream is optional: behind it, a line carries its
/// trimmed text, as a bare line does that begins with no `data:` of its own.
pub proof fn law_data_prefix_is_optional(line: Seq<char>)
    ensures
        payload_of("data:"@ + line) == (if crate::text::trimmed(line).len() == 0 {
            None
        } else {
            Some(crate::text::trimmed(line))
        }),
        !crate::text::has_prefix(crate::text::trimmed(line), "data:"@) ==> payload_of(
            "data:"@ + line,
        ) == payload_of(line),
{
    reveal_strlit("data:");
    let prefix = "data:"@;
    let whole = prefix + line;
    assert(prefix[0] == 'd' && prefix.last() == ':');
    assert(whole[0] == 'd');
    assert(crate::text::trimmed_start(whole) == whole);
    crate::text::lemma_trimmed_end_after(prefix, line);
    let bare = crate::text::trimmed(whole);
    assert(bare.take(5) == prefix);
    assert(bare.skip(5) == crate::text::trimmed_end(line));
    crate::text::lemma_trimmed_of_trimmed_end(line);
}

/// Once uplinks have been processed, the next stream asks for what came after the
/// latest of them or of where the cursor stood, and not for the last day.
pub proof fn law_next_stream_resumes(last: Option<Timestamp>, seen: Seq<Timestamp>)
    requires
        seen.len() > 0 || last is Some,
    ensures
        crate::cursor::advanced_by(last, seen) matches Some(t) && stream_query_spec(
            crate::cursor::advanced_by(last, seen),
        )[0] == ("after"@, time::rfc3339_text(t.secs, t.nanos)),
{
    crate::cursor::law_cursor_is_the_latest(last, seen);
    if seen.len() > 0 {
        assert(seen[0].not_after_spec(seen[0]));
    }
}

/// A line carries the text that stands between its white space, if it begins with
/// no `data:`, and else the text between the white space behind the `data:`,
/// whatever that text is and however long. A line without such a text carries
/// nothing.
pub proof fn law_line_carries_its_text(
    a: Seq<char>,
    b: Seq<char>,
    json: Seq<char>,
    c: Seq<char>,
)
    requires
        crate::text::is_blank(a),
        crate::text::is_blank(b),
        crate::text::is_blank(c),
        crate::text::is_bare(json),
    ensures
        !(json.len() >= 5 && json.take(5) == "data:"@) ==> payload_of(a + json + c) == Some(json),
        payload_of(a + "data:"@ + b + json + c) == Some(json),
        payload_of(a) is None,
        payload_of(a + "data:"@ + b) is None,
{
    reveal_strlit("data:");
    let prefix = "data:"@;
    let none = Seq::<char>::empty();
    assert(prefix.len() == 5 && prefix[0] == 'd' && prefix.last() == ':');
    crate::text::law_trimming_frees_the_text(a, json, c);
    if crate::text::has_prefix(json, prefix) {
        assert(json.take(5) == prefix);
    }
    let marked = prefix + b + json;
    assert(marked[0] == 'd' && marked.last() == json.last());
    crate::text::law_trimming_frees_the_text(a, marked, c);
    assert(a + prefix + b + json + c == a + marked + c);
    assert(marked.take(5) == prefix && marked.skip(5) == b + json + none);
    crate::text::law_trimming_frees_the_text(b, json, none);
    crate::text::law_trimming_frees_the_text(a, prefix, b);
    assert(prefix.take(5) == prefix && prefix.skip(5) == none);
    crate::text::law_trimming_frees_the_text(none, prefix, none);
}

/// Every line that carries a text delivers it, once and in its place, and no
/// other line delivers anything: one line alone delivers what it carries, and
/// lines behind others deliver theirs behind those of the others.
pub proof fn law_every_line_is_delivered(line: Seq<char>, a: Seq<Seq<char>>, b: Seq<Seq<char>>)
    ensures
        payloads_of(seq![line]) == (match payload_of(line) {
            Some(json) => seq![json],
            None => Seq::empty(),
        }),
        payloads_of(a + b) == payloads_of(a) + payloads_of(b),
        payloads_of(Seq::<Seq<char>>::empty()) == Seq::<Seq<char>>::empty(),
{
    assert(seq![line].drop_last() == Seq::<Seq<char>>::empty());
    assert(seq![line].last() == line);
    reveal_with_fuel(payloads_of, 2);
    lemma_payloads_append(a, b);
}

/// No line's text is lost among others, and what is delivered is some line's
/// text.
pub proof fn law_delivered_texts_are_those_of_lines(lines: Seq<Seq<char>>)
    ensures
        forall|i: int, json: Seq<char>|
            0 <= i < lines.len() && payload_of(#[trigger] lines[i]) == Some(json)
                ==> #[trigger] payloads_of(lines).contains(json),
        forall|k: int|
            0 <= k < payloads_of(lines).len() ==> exists|i: int|
                0 <= i < lines.len() && payload_of(#[trigger] lines[i]) == Some(
                    #[trigger] payloads_of(lines)[k],
                ),
    decreases lines.len(),
{
    if lines.len() > 0 {
        let init = lines.drop_last();
        let before = payloads_of(init);
        let all = payloads_of(lines);
        let last = lines.len() - 1;
        law_delivered_texts_are_those_of_lines(init);
        assert(lines[last] == lines.last());
        assert forall|i: int, json: Seq<char>|
            0 <= i < lines.len() && payload_of(#[trigger] lines[i]) == Some(
                json,
            ) implies #[trigger] all.contains(json) by {
            if i < last {
                assert(init[i] == lines[i]);
                assert(before.contains(json));
                let k = choose|k: int| 0 <= k < before.len() && before[k] == json;
                assert(all[k] == json);
            } else {
                assert(all[all.len() - 1] == json);
            }
        }
        assert forall|k: int| 0 <= k < all.len() implies exists|i: int|
            0 <= i < lines.len() && payload_of(#[trigger] lines[i]) == Some(#[trigger] all[k]) by {
            if k < before.len() {
                assert(all[k] == before[k]);
                let i = choose|i: int|
                    0 <= i < init.len() && payload_of(#[trigger] init[i]) == Some(before[k]);
                assert(lines[i] == init[i]);
            } else {
                assert(payload_of(lines[last]) == Some(all[k]));
            }
        }
    }
}

/// A line that arrives is delivered once its newline is there, between what the
/// lines in front of it and those behind it deliver, and nothing of it waits.
pub proof fn law_arrived_line_is_delivered(before: Seq<char>, line: Seq<char>, after: Seq<char>)
    requires
        before.len() > 0 ==> before.last() == '\n',
        !line.contains('\n'),
    ensures
        ({
            let whole = before + line.push('\n') + after;
            &&& payloads_of(complete_lines(whole)) == payloads_of(complete_lines(before)) + (
            match payload_of(line) {
                Some(json) => seq![json],
                None => Seq::empty(),
            }) + payloads_of(complete_lines(after))
            &&& remainder(whole) == remainder(after)
        }),
{
    let ended = line.push('\n');
    let none = Seq::<char>::empty();
    lemma_split_unfinished(line);
    assert(ended.drop_last() == line);
    assert(complete_lines(ended) == seq![line]);
    assert(remainder(ended) == none);
    assert(remainder(before) == none);
    assert(none + ended == ended);
    assert(none + after == after);
    lemma_split_append(before, ended);
    lemma_split_append(before + ended, after);
    lemma_payloads_append(complete_lines(before), complete_lines(ended));
    lemma_payloads_append(complete_lines(before + ended), complete_lines(after));
    law_every_line_is_delivered(line, Seq::empty(), Seq::empty());
}

/// What waits for its newline is kept whole: it is delivered with what follows as
/// if both had come at once, however often it waits.
pub proof fn law_waiting_text_is_kept(text: Seq<char>)
    requires
        !text.contains('\n'),
    ensures
        remainder(text) == text,
        payloads_of(complete_lines(text)) == Seq::<Seq<char>>::empty(),
{
    lemma_split_unfinished(text);
}

/// The address is that of the region's server, and ends with the application's
/// stored uplinks.
pub proof fn law_address_holds_region_and_application(region: Seq<char>, app_id: Seq<char>)
    ensures
        ({
            let url = stream_url_spec(region, app_id);
            let server = "https://"@ + region + ".cloud.thethings.network"@;
            let path = "/api/v3/as/applications/"@ + app_id + "/packages/storage/uplink_message"@;
            &&& url.len() == server.len() + path.len()
            &&& url.take(server.len() as int) == server
            &&& url.skip(server.len() as int) == path
        }),
{
    reveal_strlit(".cloud.thethings.network/api/v3/as/applications/");
    reveal_strlit(".cloud.thethings.network");
    reveal_strlit("/api/v3/as/applications/");
    assert(".cloud.thethings.network/api/v3/as/applications/"@ == ".cloud.thethings.network"@
        + "/api/v3/as/applications/"@);
    let url = stream_url_spec(region, app_id);
    let server = "https://"@ + region + ".cloud.thethings.network"@;
    let path = "/api/v3/as/applications/"@ + app_id + "/packages/storage/uplink_message"@;
    assert(url == server + path);
}

/// A query says from when on in one parameter and which members in another: after
/// the cursor's text, whatever the cursor, or the last day without a cursor; and
/// the members are the same four.
pub proof fn law_query_asks_from_the_cursor_on(t: Timestamp, cursor: Option<Timestamp>)
    ensures
        stream_query_spec(cursor).len() == 2,
        stream_query_spec(Some(t))[0] == ("after"@, time::rfc3339_text(t.secs, t.nanos)),
        stream_query_spec(None)[0] == ("last"@, "24h"@),
        stream_query_spec(cursor)[1].0 == "field_mask"@,
        stream_query_spec(cursor)[1].1
            == "up.uplink_message.f_cnt,up.uplink_message.decoded_payload,up.uplink_message.rx_metadata,up.uplink_message.settings"@,
{
    reveal_strlit("up.uplink_message.f_cnt");
    reveal_strlit("up.uplink_message.decoded_payload");
    reveal_strlit("up.uplink_message.rx_metadata");
    reveal_strlit("up.uplink_message.settings");
    reveal_strlit(",");
    reveal_strlit(
        "up.uplink_message.f_cnt,up.uplink_message.decoded_payload,up.uplink_message.rx_metadata,up.uplink_message.settings",
    );
    assert(field_mask()
        == "up.uplink_message.f_cnt,up.uplink_message.decoded_payload,up.uplink_message.rx_metadata,up.uplink_message.settings"@);
}

/// The texts of strings are those of each, whole and in their order.
pub proof fn law_every_string_is_shown(strings: Seq<String>, i: int)
    requires
        0 <= i < strings.len(),
    ensures
        string_views(strings).len() == strings.len(),
        string_views(strings)[i] == strings[i]@,
{
}

/// A parameter is its name and its value.
pub proof fn law_parameter_is_name_and_value(parameter: Parameter)
    ensures
        parameter@.0 == parameter.name@,
        parameter@.1 == parameter.value@,
{
}

} // verus!
