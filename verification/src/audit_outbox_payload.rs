//! The audit outbox accepts only small routing payloads: a non-empty object
//! whose fields are a few known identifiers, each a short text free of
//! credential markers, or a sequence number. Anything else fails closed.
use vstd::prelude::*;
use vstd::utf8::encode_utf8;

use crate::text::{
    all_whitespace, ascii_lower_seq, ascii_lowercase_chars, ascii_upper_seq,
    is_unicode_whitespace, chars_contain_str, chars_equal_str,
    chars_of, contains_run, is_ascii_alnum, is_ascii_alnum_char, is_blank, string_from_chars,
};

verus! {

pub const MAX_AUDIT_OUTBOX_PAYLOAD_TEXT_LEN: usize = 256;

/// A payload was refused. It carries nothing of the payload.
#[derive(Debug, Clone, Copy, PartialEq, Eq, Structural)]
pub struct AuditOutboxPayloadSafetyError;

/// A JSON field value as the validator reads it: a string, a number that is a
/// non-negative integer, or anything else.
#[derive(Debug, Clone, PartialEq, Eq)]
pub enum AuditPayloadField {
    Text(String),
    Unsigned(u64),
    Other,
}

/// One member of a JSON object, in the object's order.
#[derive(Debug, Clone, PartialEq, Eq)]
pub struct AuditPayloadEntry {
    pub key: String,
    pub value: AuditPayloadField,
}

/// A JSON payload as the validator reads it: an object with its members, or
/// any other JSON value.
#[derive(Debug, Clone, PartialEq, Eq)]
pub enum AuditPayloadJson {
    Object(Vec<AuditPayloadEntry>),
    NotObject,
}

/// The fields of a payload that passed validation.
#[derive(Debug, Clone, PartialEq, Eq)]
pub struct SafeAuditOutboxPayload {
    pub event_id: Option<String>,
    pub trace_id: Option<String>,
    pub event_type: Option<String>,
    pub sequence: Option<u64>,
    pub tenant_id: Option<String>,
    pub kind: Option<String>,
}

/// The markers that betray a credential or raw tool output, in lower case.
pub open spec fn has_direct_marker(s: Seq<char>) -> bool {
    ||| contains_run(s, "access token"@)
    ||| contains_run(s, "access_token"@)
    ||| contains_run(s, "accesstoken"@)
    ||| contains_run(s, "refresh token"@)
    ||| contains_run(s, "refresh_token"@)
    ||| contains_run(s, "refreshtoken"@)
    ||| contains_run(s, "authorization:"@)
    ||| contains_run(s, "authorization code"@)
    ||| contains_run(s, "authorization_code"@)
    ||| contains_run(s, "authorization-code"@)
    ||| contains_run(s, "authorizationcode"@)
    ||| contains_run(s, "auth code"@)
    ||| contains_run(s, "auth_code"@)
    ||| contains_run(s, "auth-code"@)
    ||| contains_run(s, "bearer "@)
    ||| contains_run(s, "client_secret"@)
    ||| contains_run(s, "oauth_grant"@)
    ||| contains_run(s, "stdout"@)
    ||| contains_run(s, "stderr"@)
}

/// The maximal runs of ASCII letters and digits of `s`, after the run `cur`
/// that is already open.
pub open spec fn segments_from(s: Seq<char>, cur: Seq<char>) -> Seq<Seq<char>>
    decreases s.len(),
{
    if s.len() == 0 {
        if cur.len() > 0 {
            seq![cur]
        } else {
            Seq::empty()
        }
    } else if is_ascii_alnum(s[0]) {
        segments_from(s.drop_first(), cur.push(s[0]))
    } else {
        (if cur.len() > 0 {
            seq![cur]
        } else {
            Seq::empty()
        }) + segments_from(s.drop_first(), Seq::empty())
    }
}

/// The words of `s`: its maximal runs of ASCII letters and digits.
pub open spec fn segments(s: Seq<char>) -> Seq<Seq<char>> {
    segments_from(s, Seq::empty())
}

/// Word `i` of `words` names a secret, or is `token` not followed by `refresh`.
pub open spec fn sensitive_word_at(words: Seq<Seq<char>>, i: int) -> bool {
    ||| words[i] == "secret"@
    ||| words[i] == "password"@
    ||| words[i] == "credential"@
    ||| (words[i] == "token"@ && !(i + 1 < words.len() && words[i + 1] == "refresh"@))
}

pub open spec fn has_sensitive_segment(s: Seq<char>) -> bool {
    exists|i: int| 0 <= i < segments(s).len() && #[trigger] sensitive_word_at(segments(s), i)
}

/// A text (already in lower case) that names a credential or raw tool output.
pub open spec fn direct_marker_spec(s: Seq<char>) -> bool {
    has_direct_marker(s) || has_sensitive_segment(s)
}

/// A text that, once in lower case, names a credential, raw tool output, an
/// encrypted blob or a fingerprint.
pub open spec fn sensitive_marker_spec(s: Seq<char>) -> bool {
    let lowered = ascii_lower_seq(s);
    direct_marker_spec(lowered) || contains_run(lowered, "encrypted"@) || contains_run(
        lowered,
        "fingerprint"@,
    )
}

/// The length in bytes that `str::len` reports for a text.
pub open spec fn byte_len(s: Seq<char>) -> usize {
    encode_utf8(s).len() as usize
}

/// A text the outbox may carry: not blank, at most 256 bytes of UTF-8, and
/// free of sensitive markers.
pub open spec fn audit_outbox_text_safe(s: Seq<char>) -> bool {
    &&& !all_whitespace(s)
    &&& byte_len(s) <= 256
    &&& !sensitive_marker_spec(s)
}

/// Splits into words, keeping their order.
fn split_segments(cs: &Vec<char>) -> (out: Vec<Vec<char>>)
    ensures
        out@.len() == segments(cs@).len(),
        forall|j: int| 0 <= j < out@.len() ==> (#[trigger] out@[j])@ == segments(cs@)[j],
{
    let mut out: Vec<Vec<char>> = Vec::new();
    let ghost mut acc: Seq<Seq<char>> = Seq::empty();
    let mut cur: Vec<char> = Vec::new();
    let mut i: usize = 0;
    proof {
        assert(cs@.skip(0) =~= cs@);
        assert(acc + segments_from(cs@.skip(0), cur@) =~= segments(cs@));
    }
    while i < cs.len()
        invariant
            i <= cs@.len(),
            out@.len() == acc.len(),
            forall|j: int| 0 <= j < out@.len() ==> (#[trigger] out@[j])@ == acc[j],
            acc + segments_from(cs@.skip(i as int), cur@) == segments(cs@),
        decreases cs@.len() - i,
    {
        let c = cs[i];
        proof {
            assert(cs@.skip(i as int)[0] == c);
            assert(cs@.skip(i as int).drop_first() =~= cs@.skip(i + 1));
        }
        if is_ascii_alnum_char(c) {
            cur.push(c);
        } else {
            if cur.len() > 0 {
                let ghost old_cur = cur@;
                let done = cur;
                out.push(done);
                cur = Vec::new();
                proof {
                    assert(acc + (seq![old_cur] + segments_from(cs@.skip(i + 1), Seq::empty()))
                        =~= acc.push(old_cur) + segments_from(cs@.skip(i + 1), Seq::empty()));
                    acc = acc.push(old_cur);
                    assert(cur@ =~= Seq::<char>::empty());
                }
            } else {
                proof {
                    assert(cur@ =~= Seq::<char>::empty());
                    assert(Seq::<Seq<char>>::empty() + segments_from(cs@.skip(i + 1), Seq::empty())
                        =~= segments_from(cs@.skip(i + 1), Seq::empty()));
                }
            }
        }
        i = i + 1;
    }
    proof {
        assert(cs@.skip(i as int) =~= Seq::<char>::empty());
    }
    if cur.len() > 0 {
        let ghost last = cur@;
        out.push(cur);
        proof {
            assert(acc + seq![last] =~= acc.push(last));
            acc = acc.push(last);
        }
    } else {
        proof {
            assert(acc + Seq::<Seq<char>>::empty() =~= acc);
        }
    }
    out
}

/// Whether some word of `value` names a secret, a password or a credential,
/// or is `token` without `refresh` right after it.
pub fn contains_sensitive_audit_outbox_segments(value: &str) -> (r: bool)
    ensures
        r == has_sensitive_segment(value@),
{
    let cs = chars_of(value);
    let words = split_segments(&cs);
    let ghost ws = segments(value@);
    let n = words.len();
    let mut index: usize = 0;
    while index < n
        invariant
            n == words@.len(),
            ws == segments(value@),
            words@.len() == ws.len(),
            forall|j: int| 0 <= j < words@.len() ==> (#[trigger] words@[j])@ == ws[j],
            index <= n,
            forall|j: int| 0 <= j < index ==> !#[trigger] sensitive_word_at(ws, j),
        decreases n - index,
    {
        let word = &words[index];
        if chars_equal_str(word, "secret") || chars_equal_str(word, "password") || chars_equal_str(
            word,
            "credential",
        ) {
            proof {
                assert(sensitive_word_at(ws, index as int));
            }
            return true;
        }
        if chars_equal_str(word, "token") {
            let followed_by_refresh = index + 1 < n && chars_equal_str(&words[index + 1], "refresh");
            if !followed_by_refresh {
                proof {
                    assert(sensitive_word_at(ws, index as int));
                }
                return true;
            }
        }
        index = index + 1;
    }
    false
}

/// Whether the lower-case text `value` holds a direct credential marker.
pub fn contains_sensitive_audit_outbox_direct_marker(value: &str) -> (r: bool)
    ensures
        r == direct_marker_spec(value@),
{
    let cs = chars_of(value);
    let found = chars_contain_str(&cs, "access token") || chars_contain_str(&cs, "access_token")
        || chars_contain_str(&cs, "accesstoken") || chars_contain_str(&cs, "refresh token")
        || chars_contain_str(&cs, "refresh_token") || chars_contain_str(&cs, "refreshtoken")
        || chars_contain_str(&cs, "authorization:") || chars_contain_str(&cs, "authorization code")
        || chars_contain_str(&cs, "authorization_code") || chars_contain_str(
        &cs,
        "authorization-code",
    ) || chars_contain_str(&cs, "authorizationcode") || chars_contain_str(&cs, "auth code")
        || chars_contain_str(&cs, "auth_code") || chars_contain_str(&cs, "auth-code")
        || chars_contain_str(&cs, "bearer ") || chars_contain_str(&cs, "client_secret")
        || chars_contain_str(&cs, "oauth_grant") || chars_contain_str(&cs, "stdout")
        || chars_contain_str(&cs, "stderr");
    found || contains_sensitive_audit_outbox_segments(value)
}

/// Whether `value`, in lower case, holds any sensitive marker.
pub fn contains_sensitive_audit_outbox_marker(value: &str) -> (r: bool)
    ensures
        r == sensitive_marker_spec(value@),
{
    let lowered_chars = ascii_lowercase_chars(value);
    let lowered = string_from_chars(&lowered_chars);
    contains_sensitive_audit_outbox_direct_marker(lowered.as_str()) || chars_contain_str(
        &lowered_chars,
        "encrypted",
    ) || chars_contain_str(&lowered_chars, "fingerprint")
}

/// Accepts exactly the texts the outbox may carry.
pub fn validate_audit_outbox_text(value: &str) -> (r: Result<(), AuditOutboxPayloadSafetyError>)
    ensures
        r is Ok <==> audit_outbox_text_safe(value@),
{
    if is_blank(value) || value.len() > MAX_AUDIT_OUTBOX_PAYLOAD_TEXT_LEN
        || contains_sensitive_audit_outbox_marker(value) {
        return Err(AuditOutboxPayloadSafetyError);
    }
    Ok(())
}

/// The keys whose value must be a safe text.
pub open spec fn is_text_key(key: Seq<char>) -> bool {
    key == "event_id"@ || key == "trace_id"@ || key == "event_type"@ || key == "tenant_id"@ || key
        == "kind"@
}

/// A member the outbox accepts.
pub open spec fn entry_acceptable(entry: AuditPayloadEntry) -> bool {
    if is_text_key(entry.key@) {
        entry.value matches AuditPayloadField::Text(t) && audit_outbox_text_safe(t@)
    } else if entry.key@ == "sequence"@ {
        entry.value is Unsigned
    } else {
        false
    }
}

/// A payload the outbox accepts: a non-empty object of acceptable members.
pub open spec fn payload_acceptable(payload: AuditPayloadJson) -> bool {
    match payload {
        AuditPayloadJson::Object(entries) => entries@.len() > 0 && forall|i: int|
            0 <= i < entries@.len() ==> #[trigger] entry_acceptable(entries@[i]),
        AuditPayloadJson::NotObject => false,
    }
}

/// The text of the last member named `key`, if any.
pub open spec fn last_text(entries: Seq<AuditPayloadEntry>, key: Seq<char>) -> Option<Seq<char>>
    decreases entries.len(),
{
    if entries.len() == 0 {
        None
    } else if entries.last().key@ == key && entries.last().value is Text {
        Some(entries.last().value->Text_0@)
    } else {
        last_text(entries.drop_last(), key)
    }
}

/// The number of the last member named `sequence`, if any.
pub open spec fn last_sequence(entries: Seq<AuditPayloadEntry>) -> Option<u64>
    decreases entries.len(),
{
    if entries.len() == 0 {
        None
    } else if entries.last().key@ == "sequence"@ && entries.last().value is Unsigned {
        Some(entries.last().value->Unsigned_0)
    } else {
        last_sequence(entries.drop_last())
    }
}

pub open spec fn text_field(field: Option<String>) -> Option<Seq<char>> {
    match field {
        Some(s) => Some(s@),
        None => None,
    }
}

/// `safe` holds, for each known key, the value of its last member.
pub open spec fn safe_payload_of(safe: SafeAuditOutboxPayload, entries: Seq<AuditPayloadEntry>) -> bool {
    &&& text_field(safe.event_id) == last_text(entries, "event_id"@)
    &&& text_field(safe.trace_id) == last_text(entries, "trace_id"@)
    &&& text_field(safe.event_type) == last_text(entries, "event_type"@)
    &&& text_field(safe.tenant_id) == last_text(entries, "tenant_id"@)
    &&& text_field(safe.kind) == last_text(entries, "kind"@)
    &&& safe.sequence == last_sequence(entries)
}

/// The text of a member, when the member is an acceptable text.
fn validate_audit_outbox_payload_text(value: &AuditPayloadField) -> (r: Result<
    &str,
    AuditOutboxPayloadSafetyError,
>)
    ensures
        r is Ok <==> (value matches AuditPayloadField::Text(t) && audit_outbox_text_safe(t@)),
        r matches Ok(text) ==> (value matches AuditPayloadField::Text(t) && text@ == t@),
{
    match value {
        AuditPayloadField::Text(text) => {
            validate_audit_outbox_text(text.as_str())?;
            Ok(text.as_str())
        },
        _ => Err(AuditOutboxPayloadSafetyError),
    }
}

proof fn lemma_last_step(entries: Seq<AuditPayloadEntry>, i: int)
    requires
        0 <= i < entries.len(),
    ensures
        entries.take(i + 1).drop_last() =~= entries.take(i),
        entries.take(i + 1).last() == entries[i],
{
}

impl SafeAuditOutboxPayload {
    /// Accepts exactly the acceptable payloads and returns the value of each
    /// known member.
    pub fn try_from(payload: &AuditPayloadJson) -> (r: Result<Self, AuditOutboxPayloadSafetyError>)
        ensures
            r is Ok <==> payload_acceptable(*payload),
            r matches Ok(safe) ==> (payload matches AuditPayloadJson::Object(entries)
                && safe_payload_of(safe, entries@)),
    {
        let entries = match payload {
            AuditPayloadJson::Object(entries) => entries,
            AuditPayloadJson::NotObject => {
                return Err(AuditOutboxPayloadSafetyError);
            },
        };
        if entries.len() == 0 {
            return Err(AuditOutboxPayloadSafetyError);
        }
        let mut safe = SafeAuditOutboxPayload {
            event_id: None,
            trace_id: None,
            event_type: None,
            sequence: None,
            tenant_id: None,
            kind: None,
        };
        let mut i: usize = 0;
        while i < entries.len()
            invariant
                i <= entries@.len(),
                payload_acceptable(*payload) <==> (entries@.len() > 0 && forall|k: int|
                    0 <= k < entries@.len() ==> #[trigger] entry_acceptable(entries@[k])),
                *payload matches AuditPayloadJson::Object(es) && es@ == entries@,
                forall|k: int| 0 <= k < i ==> #[trigger] entry_acceptable(entries@[k]),
                safe_payload_of(safe, entries@.take(i as int)),
            decreases entries@.len() - i,
        {
            let entry = &entries[i];
            let key = entry.key.as_str();
            proof {
                lemma_last_step(entries@, i as int);
                reveal_strlit("event_id");
                reveal_strlit("trace_id");
                reveal_strlit("event_type");
                reveal_strlit("tenant_id");
                reveal_strlit("kind");
                reveal_strlit("sequence");
                assert("sequence"@[0] != "event_id"@[0]);
                assert("sequence"@[0] != "trace_id"@[0]);
                assert("sequence"@.len() != "event_type"@.len());
                assert("sequence"@.len() != "tenant_id"@.len());
                assert("sequence"@.len() != "kind"@.len());
            }
            if str_equals_key(key, "sequence") {
                match &entry.value {
                    AuditPayloadField::Unsigned(n) => {
                        safe.sequence = Some(*n);
                    },
                    _ => {
                        proof {
                            assert(!entry_acceptable(entries@[i as int]));
                            assert(!payload_acceptable(*payload));
                        }
                        return Err(AuditOutboxPayloadSafetyError);
                    },
                }
            } else if !(str_equals_key(key, "event_id") || str_equals_key(key, "trace_id")
                || str_equals_key(key, "event_type") || str_equals_key(key, "tenant_id")
                || str_equals_key(key, "kind")) {
                proof {
                    assert(!entry_acceptable(entries@[i as int]));
                }
                return Err(AuditOutboxPayloadSafetyError);
            } else {
                let text = match validate_audit_outbox_payload_text(&entry.value) {
                    Ok(text) => string_of_text(text),
                    Err(error) => {
                        proof {
                            assert(!entry_acceptable(entries@[i as int]));
                            assert(!payload_acceptable(*payload));
                        }
                        return Err(error);
                    },
                };
                if str_equals_key(key, "event_id") {
                    safe.event_id = Some(text);
                } else if str_equals_key(key, "trace_id") {
                    safe.trace_id = Some(text);
                } else if str_equals_key(key, "event_type") {
                    safe.event_type = Some(text);
                } else if str_equals_key(key, "tenant_id") {
                    safe.tenant_id = Some(text);
                } else {
                    safe.kind = Some(text);
                }
            }
            i = i + 1;
        }
        proof {
            assert(entries@.take(entries@.len() as int) =~= entries@);
        }
        Ok(safe)
    }
}

fn str_equals_key(key: &str, name: &str) -> (r: bool)
    ensures
        r == (key@ == name@),
{
    crate::text::str_equals(key, name)
}

fn string_of_text(text: &str) -> (s: String)
    ensures
        s@ == text@,
{
    crate::text::string_of(text)
}

/// Accepts exactly the payloads the outbox may carry.
pub fn validate_audit_outbox_payload(payload: &AuditPayloadJson) -> (r: Result<
    (),
    AuditOutboxPayloadSafetyError,
>)
    ensures
        r is Ok <==> payload_acceptable(*payload),
{
    match SafeAuditOutboxPayload::try_from(payload) {
        Ok(_) => Ok(()),
        Err(error) => Err(error),
    }
}

proof fn lemma_ascii_swaps_keep_byte_len(s: Seq<char>, t: Seq<char>)
    requires
        s.len() == t.len(),
        forall|i: int|
            0 <= i < s.len() ==> s[i] == t[i] || ((s[i] as u32) < 0x80 && (#[trigger] t[i] as u32)
                < 0x80),
    ensures
        encode_utf8(s).len() == encode_utf8(t).len(),
    decreases s.len(),
{
    if s.len() > 0 {
        assert(t[0] == t[0]);
        lemma_ascii_swaps_keep_byte_len(s.drop_first(), t.drop_first());
        assert forall|i: int| 0 <= i < s.drop_first().len() implies (s.drop_first()[i] == t.drop_first()[i]
            || ((s.drop_first()[i] as u32) < 0x80 && (#[trigger] t.drop_first()[i] as u32) < 0x80)) by {
            assert(t.drop_first()[i] == t[i + 1]);
            assert(s.drop_first()[i] == s[i + 1]);
        }
    }
}

proof fn lemma_case_change_keeps_safety(s: Seq<char>, t: Seq<char>)
    requires
        s.len() == t.len(),
        ascii_lower_seq(s) == ascii_lower_seq(t),
        forall|i: int|
            0 <= i < s.len() ==> s[i] == t[i] || ((s[i] as u32) < 0x80 && (#[trigger] t[i] as u32)
                < 0x80 && !is_unicode_whitespace(s[i]) && !is_unicode_whitespace(t[i])),
    ensures
        audit_outbox_text_safe(s) == audit_outbox_text_safe(t),
{
    lemma_ascii_swaps_keep_byte_len(s, t);
    assert(all_whitespace(s) == all_whitespace(t)) by {
        if all_whitespace(s) {
            assert forall|i: int| 0 <= i < t.len() implies is_unicode_whitespace(#[trigger] t[i]) by {
                assert(is_unicode_whitespace(s[i]));
            }
        }
        if all_whitespace(t) {
            assert forall|i: int| 0 <= i < s.len() implies is_unicode_whitespace(#[trigger] s[i]) by {
                assert(is_unicode_whitespace(t[i]));
            }
        }
    }
}

/// Whether a text may travel in the outbox does not depend on ASCII case:
/// the text, its ASCII lower-case form and its ASCII upper-case form are all
/// accepted or all refused (so "FINGERPRINT" and "Secret" are refused as
/// their lower-case forms are).
pub proof fn lemma_audit_outbox_text_ignores_ascii_case(s: Seq<char>)
    ensures
        audit_outbox_text_safe(ascii_lower_seq(s)) == audit_outbox_text_safe(s),
        audit_outbox_text_safe(ascii_upper_seq(s)) == audit_outbox_text_safe(s),
{
    let lower = ascii_lower_seq(s);
    let upper = ascii_upper_seq(s);
    assert(ascii_lower_seq(lower) =~= ascii_lower_seq(s));
    assert(ascii_lower_seq(upper) =~= ascii_lower_seq(s));
    assert forall|i: int| 0 <= i < s.len() implies (lower[i] == s[i] || ((lower[i] as u32) < 0x80
        && (#[trigger] s[i] as u32) < 0x80 && !is_unicode_whitespace(lower[i]) && !is_unicode_whitespace(s[i]))) by {}
    lemma_case_change_keeps_safety(lower, s);
    assert forall|i: int| 0 <= i < s.len() implies (upper[i] == s[i] || ((upper[i] as u32) < 0x80
        && (#[trigger] s[i] as u32) < 0x80 && !is_unicode_whitespace(upper[i]) && !is_unicode_whitespace(s[i]))) by {}
    lemma_case_change_keeps_safety(upper, s);
}

/// No text that names a credential, raw tool output, an encrypted blob or a
/// fingerprint reaches the outbox: a text whose ASCII lower-case form
/// contains any of these markers is refused, whatever else it holds.
pub proof fn lemma_credential_markers_are_refused(s: Seq<char>)
    ensures
        contains_run(ascii_lower_seq(s), "access token"@) ==> !audit_outbox_text_safe(s),
        contains_run(ascii_lower_seq(s), "access_token"@) ==> !audit_outbox_text_safe(s),
        contains_run(ascii_lower_seq(s), "accesstoken"@) ==> !audit_outbox_text_safe(s),
        contains_run(ascii_lower_seq(s), "refresh token"@) ==> !audit_outbox_text_safe(s),
        contains_run(ascii_lower_seq(s), "refresh_token"@) ==> !audit_outbox_text_safe(s),
        contains_run(ascii_lower_seq(s), "refreshtoken"@) ==> !audit_outbox_text_safe(s),
        contains_run(ascii_lower_seq(s), "authorization:"@) ==> !audit_outbox_text_safe(s),
        contains_run(ascii_lower_seq(s), "authorization code"@) ==> !audit_outbox_text_safe(s),
        contains_run(ascii_lower_seq(s), "authorization_code"@) ==> !audit_outbox_text_safe(s),
        contains_run(ascii_lower_seq(s), "authorization-code"@) ==> !audit_outbox_text_safe(s),
        contains_run(ascii_lower_seq(s), "authorizationcode"@) ==> !audit_outbox_text_safe(s),
        contains_run(ascii_lower_seq(s), "auth code"@) ==> !audit_outbox_text_safe(s),
        contains_run(ascii_lower_seq(s), "auth_code"@) ==> !audit_outbox_text_safe(s),
        contains_run(ascii_lower_seq(s), "auth-code"@) ==> !audit_outbox_text_safe(s),
        contains_run(ascii_lower_seq(s), "bearer "@) ==> !audit_outbox_text_safe(s),
        contains_run(ascii_lower_seq(s), "client_secret"@) ==> !audit_outbox_text_safe(s),
        contains_run(ascii_lower_seq(s), "oauth_grant"@) ==> !audit_outbox_text_safe(s),
        contains_run(ascii_lower_seq(s), "stdout"@) ==> !audit_outbox_text_safe(s),
        contains_run(ascii_lower_seq(s), "stderr"@) ==> !audit_outbox_text_safe(s),
        contains_run(ascii_lower_seq(s), "encrypted"@) ==> !audit_outbox_text_safe(s),
        contains_run(ascii_lower_seq(s), "fingerprint"@) ==> !audit_outbox_text_safe(s),
{
}

/// A text with the word `secret`, `password` or `credential`, or the word
/// `token` not followed by the word `refresh`, among the words of its ASCII
/// lower-case form (its runs of ASCII letters and digits), is refused.
pub proof fn lemma_secret_words_are_refused(s: Seq<char>, i: int)
    requires
        0 <= i < segments(ascii_lower_seq(s)).len(),
    ensures
        segments(ascii_lower_seq(s))[i] == "secret"@ ==> !audit_outbox_text_safe(s),
        segments(ascii_lower_seq(s))[i] == "password"@ ==> !audit_outbox_text_safe(s),
        segments(ascii_lower_seq(s))[i] == "credential"@ ==> !audit_outbox_text_safe(s),
        (segments(ascii_lower_seq(s))[i] == "token"@ && !(i + 1 < segments(ascii_lower_seq(s)).len()
            && segments(ascii_lower_seq(s))[i + 1] == "refresh"@)) ==> !audit_outbox_text_safe(s),
{
    assert(sensitive_word_at(segments(ascii_lower_seq(s)), i) ==> has_sensitive_segment(
        ascii_lower_seq(s),
    ));
}

} // verus!
