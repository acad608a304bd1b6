//! The health server's answers.

use vstd::prelude::*;
use vstd::string::StringExecFns;

use crate::text::contains;
use crate::text::from_utf8_lossy;
use crate::text::push_decimal;

verus! {

/// The answer that carries the health as JSON, with the length of its body.
pub open spec fn health_answer(healthy: bool, json: Seq<char>) -> Seq<char> {
    let status = if healthy {
        "200 OK"@
    } else {
        "503 Service Unavailable"@
    };
    "HTTP/1.1 "@ + status + "\r\nContent-Type: application/json\r\nContent-Length: "@
        + crate::text::decimal(vstd::utf8::encode_utf8(json).len()) + "\r\n\r\n"@ + json
}

/// The answer to any other request.
pub open spec fn not_found_answer() -> Seq<char> {
    "HTTP/1.1 404 Not Found\r\nContent-Length: 9\r\n\r\nNot Found"@
}

/// What is answered to the text of a request. Where the health could not be
/// turned into JSON, the body is an empty object.
pub open spec fn answer_to(text: Seq<char>, healthy: bool, json: Option<Seq<char>>) -> Seq<char> {
    if crate::text::has_substring(text, "GET /health"@) {
        health_answer(
            healthy,
            match json {
                Some(j) => j,
                None => "{}"@,
            },
        )
    } else {
        not_found_answer()
    }
}

/// What is answered: nothing to a request without bytes, and to any other what
/// its text asks for.
pub open spec fn answer(request: Seq<u8>, healthy: bool, json: Option<Seq<char>>) -> Option<
    Seq<char>,
> {
    if request.len() == 0 {
        None
    } else {
        Some(answer_to(crate::text::lossy_text(request), healthy, json))
    }
}

/// The answer that carries the health as JSON.
pub fn health_response(healthy: bool, json: &str) -> (r: String)
    ensures
        r@ == health_answer(healthy, json@),
{
    let mut response: String = "HTTP/1.1 ".to_owned();
    response.append(
        if healthy {
            "200 OK"
        } else {
            "503 Service Unavailable"
        },
    );
    response.append("\r\nContent-Type: application/json\r\nContent-Length: ");
    push_decimal(&mut response, json.as_bytes().len() as u64);
    response.append("\r\n\r\n");
    response.append(json);
    response
}

/// Whether the text of a request asks for the health.
pub fn is_health_request(request: &str) -> (r: bool)
    ensures
        r == crate::text::has_substring(request@, "GET /health"@),
{
    contains(request, "GET /health")
}

/// What is answered to the text of a request.
pub fn respond_to(text: &str, healthy: bool, json: Option<&str>) -> (r: String)
    ensures
        r@ == answer_to(
            text@,
            healthy,
            match json {
                Some(j) => Some(j@),
                None => None,
            },
        ),
{
    if is_health_request(text) {
        health_response(
            healthy,
            match json {
                Some(j) => j,
                None => "{}",
            },
        )
    } else {
        "HTTP/1.1 404 Not Found\r\nContent-Length: 9\r\n\r\nNot Found".to_owned()
    }
}

/// What is answered to the bytes of a request. Bytes that are UTF-8 are taken for
/// the text that they encode, and what is no UTF-8 is replaced.
pub fn respond(request: &[u8], healthy: bool, json: Option<&str>) -> (r: Option<String>)
    ensures
        match r {
            Some(text) => {
                &&& answer(
                    request@,
                    healthy,
                    match json {
                        Some(j) => Some(j@),
                        None => None,
                    },
                ) == Some(text@)
                &&& vstd::utf8::valid_utf8(request@) ==> crate::text::lossy_text(request@)
                    == vstd::utf8::decode_utf8(request@)
            },
            None => request@.len() == 0,
        },
{
    if request.len() == 0 {
        return None;
    }
    let text: String = from_utf8_lossy(request);
    Some(respond_to(text.as_str(), healthy, json))
}

/// A healthy service answers with 200 and any other with 503.
pub proof fn law_status_line_tells_health(healthy: bool, json: Seq<char>)
    ensures
        crate::text::has_prefix(health_answer(healthy, json), "HTTP/1.1 200 OK"@) == healthy,
        crate::text::has_prefix(health_answer(healthy, json), "HTTP/1.1 503 Service Unavailable"@)
            == !healthy,
{
    reveal_strlit("HTTP/1.1 ");
    reveal_strlit("200 OK");
    reveal_strlit("503 Service Unavailable");
    reveal_strlit("HTTP/1.1 200 OK");
    reveal_strlit("HTTP/1.1 503 Service Unavailable");
    let text = health_answer(healthy, json);
    if healthy {
        assert("HTTP/1.1 "@ + "200 OK"@ =~= "HTTP/1.1 200 OK"@);
        assert(text.take(15) =~= "HTTP/1.1 200 OK"@);
        assert(text[9] == '2');
        assert("HTTP/1.1 503 Service Unavailable"@[9] == '5');
        assert(crate::text::has_prefix(text, "HTTP/1.1 503 Service Unavailable"@) ==> text.take(
            32,
        )[9] == '5');
    } else {
        assert(text.take(32) =~= "HTTP/1.1 503 Service Unavailable"@);
        assert(text[9] == '5');
        assert("HTTP/1.1 200 OK"@[9] == '2');
        assert(crate::text::has_prefix(text, "HTTP/1.1 200 OK"@) ==> text.take(15)[9] == '2');
    }
}

/// The length that the answer to any other request announces is that of its
/// body.
pub proof fn law_not_found_announces_its_length()
    ensures
        not_found_answer() == "HTTP/1.1 404 Not Found\r\nContent-Length: "@ + crate::text::decimal(
            vstd::utf8::encode_utf8("Not Found"@).len(),
        ) + "\r\n\r\n"@ + "Not Found"@,
{
    reveal_strlit("HTTP/1.1 404 Not Found\r\nContent-Length: 9\r\n\r\nNot Found");
    reveal_strlit("HTTP/1.1 404 Not Found\r\nContent-Length: ");
    reveal_strlit("\r\n\r\n");
    reveal_strlit("Not Found");
    vstd::utf8::is_ascii_chars_encode_utf8("Not Found"@);
    assert(crate::text::decimal(9) =~= seq!['9']);
    assert(not_found_answer() =~= "HTTP/1.1 404 Not Found\r\nContent-Length: "@ + seq!['9']
        + "\r\n\r\n"@ + "Not Found"@);
}

/// A request is answered with the health if and only if `GET /health` stands in
/// its text, whatever is in front of it and behind it.
pub proof fn law_health_is_answered_where_asked_for(
    a: Seq<char>,
    b: Seq<char>,
    other: Seq<char>,
    healthy: bool,
    json: Seq<char>,
)
    requires
        forall|x: Seq<char>, y: Seq<char>| other != #[trigger] (x + "GET /health"@ + y),
    ensures
        answer_to(a + "GET /health"@ + b, healthy, Some(json)) == health_answer(healthy, json),
        answer_to(a + "GET /health"@ + b, healthy, None) == health_answer(healthy, "{}"@),
        answer_to(other, healthy, Some(json)) == not_found_answer(),
        answer_to(other, healthy, None) == not_found_answer(),
{
    crate::text::law_search_finds_the_text(a, "GET /health"@, b);
    if crate::text::has_substring(other, "GET /health"@) {
        let (x, y) = crate::text::law_search_finds_nothing_else(other, "GET /health"@);
        assert(other == x + "GET /health"@ + y);
    }
}

/// Every request that holds a byte is answered by what its text asks for, and one
/// without bytes is not.
pub proof fn law_every_request_is_answered(
    request: Seq<u8>,
    healthy: bool,
    json: Option<Seq<char>>,
)
    ensures
        answer(request, healthy, json) is None <==> request.len() == 0,
        request.len() > 0 ==> answer(request, healthy, json) == Some(
            answer_to(crate::text::lossy_text(request), healthy, json),
        ),
{
}

/// The health's answer ends with its JSON, whole, and announces how many bytes
/// that has: the announced numeral, which is returned, denotes them.
pub proof fn law_health_announces_its_length(healthy: bool, json: Seq<char>) -> (length: Seq<char>)
    ensures
        crate::text::is_numeral(length),
        crate::text::numeral_value(length) == vstd::utf8::encode_utf8(json).len(),
        ({
            let head = if healthy {
                "HTTP/1.1 200 OK"@
            } else {
                "HTTP/1.1 503 Service Unavailable"@
            };
            let rest = "\r\nContent-Type: application/json\r\nContent-Length: "@ + length
                + "\r\n\r\n"@ + json;
            &&& health_answer(healthy, json).take(head.len() as int) == head
            &&& health_answer(healthy, json).skip(head.len() as int) == rest
        }),
{
    let length = crate::text::decimal(vstd::utf8::encode_utf8(json).len());
    crate::text::law_decimal_denotes_its_number(vstd::utf8::encode_utf8(json).len());
    reveal_strlit("HTTP/1.1 ");
    reveal_strlit("200 OK");
    reveal_strlit("503 Service Unavailable");
    reveal_strlit("HTTP/1.1 200 OK");
    reveal_strlit("HTTP/1.1 503 Service Unavailable");
    assert("HTTP/1.1 200 OK"@ == "HTTP/1.1 "@ + "200 OK"@);
    assert("HTTP/1.1 503 Service Unavailable"@ == "HTTP/1.1 "@ + "503 Service Unavailable"@);
    let head = if healthy {
        "HTTP/1.1 200 OK"@
    } else {
        "HTTP/1.1 503 Service Unavailable"@
    };
    let rest = "\r\nContent-Type: application/json\r\nContent-Length: "@ + length
        + "\r\n\r\n"@ + json;
    assert(health_answer(healthy, json) == head + rest);
    length
}

} // verus!
