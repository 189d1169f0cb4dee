//! The canonical serialized form of a submission payload: a stable
//! rendering with fixed key order, used to fingerprint a payload for
//! the idempotency protocol. Two submissions carry the same fingerprint
//! exactly when this rendering of them is the same.

use vstd::prelude::*;

verus! {

use vstd::string::{StrSliceExecFns, StringExecFns};

use crate::registry::lang_name;
use crate::text::{dec_rep, u64_to_dec};
use crate::admission::{SubmitRequest, TestCaseInput};

/// Characters that are escaped in a rendered string.
pub open spec fn is_json_special(c: char) -> bool {
    c == '"' || c == '\\' || c == '\n' || c == '\r' || c == '\t'
}

/// The escape of a single character.
pub open spec fn escape_char(c: char) -> Seq<char> {
    if c == '"' {
        "\\\""@
    } else if c == '\\' {
        "\\\\"@
    } else if c == '\n' {
        "\\n"@
    } else if c == '\r' {
        "\\r"@
    } else if c == '\t' {
        "\\t"@
    } else {
        seq![c]
    }
}

/// A string with every character escaped.
pub open spec fn json_escape(s: Seq<char>) -> Seq<char>
    decreases s.len(),
{
    if s.len() == 0 {
        Seq::empty()
    } else {
        escape_char(s[0]) + json_escape(s.drop_first())
    }
}

/// Escaping distributes over concatenation.
pub proof fn lemma_json_escape_concat(a: Seq<char>, b: Seq<char>)
    ensures
        json_escape(a + b) == json_escape(a) + json_escape(b),
    decreases a.len(),
{
    if a.len() == 0 {
        assert(a + b =~= b);
        assert(json_escape(a) + json_escape(b) =~= json_escape(b));
    } else {
        assert((a + b).drop_first() =~= a.drop_first() + b);
        lemma_json_escape_concat(a.drop_first(), b);
        assert(escape_char((a + b)[0]) + (json_escape(a.drop_first()) + json_escape(b))
            =~= (escape_char(a[0]) + json_escape(a.drop_first())) + json_escape(b));
    }
}

/// A string without special characters escapes to itself.
pub proof fn lemma_json_escape_clean(s: Seq<char>)
    requires
        forall|k: int| 0 <= k < s.len() ==> !is_json_special(s[k]),
    ensures
        json_escape(s) == s,
    decreases s.len(),
{
    if s.len() == 0 {
        assert(json_escape(s) =~= s);
    } else {
        lemma_json_escape_clean(s.drop_first());
        assert(escape_char(s[0]) =~= seq![s[0]]);
        assert(seq![s[0]] + s.drop_first() =~= s);
    }
}

/// Whether `c` is escaped in a rendered string.
fn is_special_char(c: char) -> (b: bool)
    ensures
        b == is_json_special(c),
{
    c == '"' || c == '\\' || c == '\n' || c == '\r' || c == '\t'
}

/// Render a string with its special characters escaped.
pub fn escape_json(s: &str) -> (r: String)
    ensures
        r@ == json_escape(s@),
{
    let len = s.unicode_len();
    let mut acc = String::new();
    let mut run: usize = 0;
    let mut i: usize = 0;
    while i < len
        invariant
            0 <= run <= i <= len,
            len == s@.len(),
            acc@ == json_escape(s@.subrange(0, run as int)),
            forall|k: int| run <= k < i ==> !is_json_special(s@[k]),
        decreases len - i,
    {
        let c = s.get_char(i);
        if is_special_char(c) {
            let clean = s.substring_char(run, i);
            acc.append(clean);
            proof {
                lemma_json_escape_clean(s@.subrange(run as int, i as int));
            }
            if c == '"' {
                acc.append("\\\"");
            } else if c == '\\' {
                acc.append("\\\\");
            } else if c == '\n' {
                acc.append("\\n");
            } else if c == '\r' {
                acc.append("\\r");
            } else {
                acc.append("\\t");
            }
            proof {
                let pre = s@.subrange(0, run as int);
                let mid = s@.subrange(run as int, i as int);
                assert(s@.subrange(0, i as int) =~= pre + mid);
                lemma_json_escape_concat(pre, mid);
                assert(s@.subrange(0, i + 1) =~= s@.subrange(0, i as int) + seq![s@[i as int]]);
                lemma_json_escape_concat(s@.subrange(0, i as int), seq![s@[i as int]]);
                assert(seq![s@[i as int]].drop_first() =~= Seq::<char>::empty());
                assert(json_escape(seq![s@[i as int]]) == escape_char(s@[i as int]) + json_escape(
                    Seq::<char>::empty(),
                ));
                assert(escape_char(s@[i as int]) + Seq::<char>::empty() =~= escape_char(
                    s@[i as int],
                ));
                assert(acc@ =~= json_escape(s@.subrange(0, i + 1)));
            }
            run = i + 1;
        }
        i = i + 1;
    }
    let tail = s.substring_char(run, len);
    acc.append(tail);
    proof {
        lemma_json_escape_clean(s@.subrange(run as int, len as int));
        assert(s@.subrange(0, len as int) =~= s@.subrange(0, run as int) + s@.subrange(
            run as int,
            len as int,
        ));
        lemma_json_escape_concat(
            s@.subrange(0, run as int),
            s@.subrange(run as int, len as int),
        );
        assert(s@.subrange(0, len as int) =~= s@);
    }
    acc
}

/// The canonical rendering of one test case of the payload.
pub open spec fn spec_case_canon(tc: TestCaseInput) -> Seq<char> {
    "{\"input\":\""@ + json_escape(tc.input@) + "\",\"expected_output\":\""@ + json_escape(
        tc.expected_output@,
    ) + "\",\"weight\":"@ + dec_rep(tc.weight as int) + "}"@
}

/// The canonical rendering of a sequence of test cases, comma-separated.
pub open spec fn spec_cases_canon(tcs: Seq<TestCaseInput>) -> Seq<char>
    decreases tcs.len(),
{
    if tcs.len() == 0 {
        Seq::empty()
    } else if tcs.len() == 1 {
        spec_case_canon(tcs[0])
    } else {
        spec_cases_canon(tcs.drop_last()) + ","@ + spec_case_canon(tcs.last())
    }
}

/// The canonical rendering of a whole submission payload, with a fixed
/// key order: language, source code, test cases, timeout.
pub open spec fn spec_fingerprint(req: SubmitRequest) -> Seq<char> {
    "{\"language\":\""@ + lang_name(req.language) + "\",\"source_code\":\""@ + json_escape(
        req.source_code@,
    ) + "\",\"test_cases\":["@ + spec_cases_canon(req.test_cases@) + "],\"timeout_ms\":"@
        + dec_rep(req.timeout_ms as int) + "}"@
}

/// Render one test case canonically.
fn case_canon(tc: &TestCaseInput) -> (r: String)
    ensures
        r@ == spec_case_canon(*tc),
{
    let mut acc = String::from_str("{\"input\":\"");
    acc.append(escape_json(tc.input.as_str()).as_str());
    acc.append("\",\"expected_output\":\"");
    acc.append(escape_json(tc.expected_output.as_str()).as_str());
    acc.append("\",\"weight\":");
    acc.append(u64_to_dec(tc.weight as u64).as_str());
    acc.append("}");
    acc
}

/// The canonical fingerprint of a submission payload. Deterministic:
/// equal payloads always fingerprint alike, on any machine.
pub fn canonical_fingerprint(req: &SubmitRequest) -> (r: String)
    ensures
        r@ == spec_fingerprint(*req),
{
    let mut acc = String::from_str("{\"language\":\"");
    acc.append(req.language.as_str());
    acc.append("\",\"source_code\":\"");
    acc.append(escape_json(req.source_code.as_str()).as_str());
    acc.append("\",\"test_cases\":[");
    let mut i: usize = 0;
    while i < req.test_cases.len()
        invariant
            0 <= i <= req.test_cases@.len(),
            acc@ == "{\"language\":\""@ + lang_name(req.language) + "\",\"source_code\":\""@
                + json_escape(req.source_code@) + "\",\"test_cases\":["@ + spec_cases_canon(
                req.test_cases@.subrange(0, i as int),
            ),
        decreases req.test_cases@.len() - i,
    {
        if i > 0 {
            acc.append(",");
        }
        acc.append(case_canon(&req.test_cases[i]).as_str());
        proof {
            let pre = req.test_cases@.subrange(0, i as int);
            let cur = req.test_cases@.subrange(0, i + 1);
            assert(cur.drop_last() =~= pre);
            assert(cur.last() == req.test_cases@[i as int]);
        }
        i = i + 1;
    }
    proof {
        assert(req.test_cases@.subrange(0, req.test_cases@.len() as int) =~= req.test_cases@);
    }
    acc.append("],\"timeout_ms\":");
    acc.append(u64_to_dec(req.timeout_ms).as_str());
    acc.append("}");
    acc
}

} // verus!
