//! The push-credentials file that the web view hands to the native side.

use vstd::prelude::*;
use crate::text::{join, push_char};
use crate::json::{is_control, json_member_text, json_object_text, json_string_text, plain_text_needs_no_escape};
use vstd::std_specs::iter::IteratorSpec;

verus! {

/// Whether `c` is kept in a credential value: quotes and backslashes are not.
pub open spec fn kept_in_value(c: char) -> bool {
    c != '"' && c != '\\'
}

/// `s` without its quotes and backslashes (`s.replace('"', "").replace('\\', "")`).
pub open spec fn strip_value(s: Seq<char>) -> Seq<char> {
    s.filter(|c: char| kept_in_value(c))
}

/// The credential file's text for `token` and `mid`.
pub open spec fn creds_json(token: Seq<char>, mid: Seq<char>) -> Seq<char> {
    "{\"token\":\""@ + strip_value(token) + "\",\"mid\":\""@ + strip_value(mid) + "\"}"@
}

/// A stripped value holds neither quotes nor backslashes, so in the credential
/// file it cannot end its string early or escape anything; stripping again
/// changes nothing.
pub proof fn stripped_value_is_inert(s: Seq<char>)
    ensures
        forall|i: int| 0 <= i < strip_value(s).len() ==> kept_in_value(#[trigger] strip_value(s)[i]),
        strip_value(strip_value(s)) == strip_value(s),
{
    let keep = |c: char| kept_in_value(c);
    assert forall|i: int| 0 <= i < strip_value(s).len() implies kept_in_value(#[trigger] strip_value(s)[i]) by {
        s.lemma_filter_pred(keep, i);
    }
    filter_keeps_all_kept(strip_value(s));
}

proof fn filter_keeps_all_kept(t: Seq<char>)
    requires
        forall|i: int| 0 <= i < t.len() ==> kept_in_value(#[trigger] t[i]),
    ensures
        strip_value(t) == t,
    decreases t.len(),
{
    reveal(Seq::filter);
    if t.len() > 0 {
        filter_keeps_all_kept(t.drop_last());
        assert(kept_in_value(t[t.len() - 1]));
        assert(t.drop_last().push(t.last()) =~= t);
    }
}

/// How many times `c` occurs in `s`.
pub open spec fn occurrences(s: Seq<char>, c: char) -> nat
    decreases s.len(),
{
    if s.len() == 0 {
        0
    } else {
        occurrences(s.drop_last(), c) + if s.last() == c { 1nat } else { 0nat }
    }
}

/// Stripping removes exactly the quotes and backslashes: every other
/// character occurs in the stripped value as often as in the input, in the
/// same order, and a value without quotes or backslashes comes back
/// unchanged.
pub proof fn strip_removes_only_quotes_and_backslashes(s: Seq<char>, c: char)
    ensures
        c != '"' && c != '\\' ==> occurrences(strip_value(s), c) == occurrences(s, c),
        c == '"' || c == '\\' ==> occurrences(strip_value(s), c) == 0,
        (forall|i: int| 0 <= i < s.len() ==> #[trigger] s[i] != '"' && s[i] != '\\') ==> strip_value(s) == s,
    decreases s.len(),
{
    reveal(Seq::filter);
    if s.len() > 0 {
        strip_removes_only_quotes_and_backslashes(s.drop_last(), c);
        let rest = strip_value(s.drop_last());
        if s.last() != '"' && s.last() != '\\' {
            assert(strip_value(s) == rest.push(s.last()));
            assert(rest.push(s.last()).drop_last() =~= rest);
        } else {
            assert(strip_value(s) == rest);
        }
        if forall|i: int| 0 <= i < s.len() ==> #[trigger] s[i] != '"' && s[i] != '\\' {
            assert(forall|i: int| 0 <= i < s.drop_last().len() ==> s.drop_last()[i] == s[i]);
            assert(s.drop_last().push(s.last()) =~= s);
        }
    }
}

/// `s` without its quotes and backslashes.
pub fn strip_value_text(s: &str) -> (r: String)
    ensures
        r@ == strip_value(s@),
{
    let mut r = String::new();
    let ghost chars = s@;
    let mut it = s.chars();
    let ghost mut taken: int = 0;
    broadcast use vstd::string::group_string_axioms;
    assert(it.remaining() == s@);
    loop
        invariant_except_break
            0 <= taken <= chars.len(),
            it.remaining() == chars.skip(taken),
            r@ == strip_value(chars.take(taken)),
        ensures
            r@ == strip_value(chars),
        decreases chars.len() - taken,
    {
        match it.next() {
            Some(c) => {
                assert(c == chars[taken]);
                assert(chars.take(taken + 1).drop_last() =~= chars.take(taken));
                reveal_with_fuel(Seq::filter, 1);
                if c != '"' && c != '\\' {
                    push_char(&mut r, c);
                }
                proof {
                    assert(chars.skip(taken).drop_first() =~= chars.skip(taken + 1));
                    taken = taken + 1;
                }
            },
            None => {
                assert(chars.take(taken) =~= chars);
                break;
            },
        }
    }
    r
}

/// The credential file's text: `{"token":"…","mid":"…"}` with each value
/// stripped of quotes and backslashes.
pub fn push_creds_json(token: &str, mid: &str) -> (json: String)
    ensures
        json@ == creds_json(token@, mid@),
{
    let mut json = String::from_str("{\"token\":\"");
    let t = strip_value_text(token);
    json.append(t.as_str());
    json.append("\",\"mid\":\"");
    let m = strip_value_text(mid);
    json.append(m.as_str());
    json.append("\"}");
    json
}

/// The credential file is JSON: for a token and merchant id without control
/// characters, its text is the JSON object with the string members `token`
/// and `mid`, in that order, holding the stripped token and id.
pub proof fn creds_text_is_json_object(token: Seq<char>, mid: Seq<char>)
    requires
        forall|i: int| 0 <= i < token.len() ==> !is_control(#[trigger] token[i]),
        forall|i: int| 0 <= i < mid.len() ==> !is_control(#[trigger] mid[i]),
    ensures
        creds_json(token, mid) == json_object_text(seq![("token"@, strip_value(token)), ("mid"@, strip_value(mid))]),
{
    let t = strip_value(token);
    let m = strip_value(mid);
    strip_keeps_plain(token);
    strip_keeps_plain(mid);
    plain_text_needs_no_escape(t);
    plain_text_needs_no_escape(m);
    reveal_strlit("token");
    reveal_strlit("mid");
    reveal_strlit("{\"token\":\"");
    reveal_strlit("\",\"mid\":\"");
    reveal_strlit("\"}");
    plain_text_needs_no_escape("token"@);
    plain_text_needs_no_escape("mid"@);
    let members = seq![("token"@, t), ("mid"@, m)];
    let texts = members.map_values(|x: (Seq<char>, Seq<char>)| json_member_text(x));
    assert(texts.len() == 2);
    assert(texts[0] == json_member_text(("token"@, t)));
    assert(texts[1] == json_member_text(("mid"@, m)));
    assert(texts.drop_last() =~= seq![texts[0]]);
    assert(join(texts, seq![',']) == join(texts.drop_last(), seq![',']) + seq![','] + texts[1]);
    assert(join(texts.drop_last(), seq![',']) == texts[0]);
    assert(json_string_text("token"@) =~= seq!['"', 't', 'o', 'k', 'e', 'n', '"']);
    assert(json_string_text("mid"@) =~= seq!['"', 'm', 'i', 'd', '"']);
    assert(creds_json(token, mid) =~= json_object_text(members));
}

/// Stripping keeps only characters that need no escape in JSON, when the
/// value holds no control character.
proof fn strip_keeps_plain(s: Seq<char>)
    requires
        forall|i: int| 0 <= i < s.len() ==> !is_control(#[trigger] s[i]),
    ensures
        forall|i: int| 0 <= i < strip_value(s).len() ==> #[trigger] strip_value(s)[i] != '"'
            && strip_value(s)[i] != '\\' && !is_control(strip_value(s)[i]),
    decreases s.len(),
{
    reveal(Seq::filter);
    if s.len() > 0 {
        strip_keeps_plain(s.drop_last());
        let rest = strip_value(s.drop_last());
        assert(forall|i: int| 0 <= i < s.drop_last().len() ==> s.drop_last()[i] == s[i]);
        assert(!is_control(s[s.len() - 1]));
        if kept_in_value(s.last()) {
            assert(strip_value(s) == rest.push(s.last()));
        } else {
            assert(strip_value(s) == rest);
        }
    }
}

} // verus!
