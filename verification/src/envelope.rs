//! The control-plane envelope a flow message carries: a handle, never data.
use vstd::prelude::*;
use crate::json::{Json, JsonNumber, text_member, unsigned_member};
use crate::plan::SourceId;
use crate::error::Z8Error;

verus! {

/// What a handle names.
#[derive(Debug, PartialEq, Eq, Structural, Clone, Copy)]
pub enum Role {
    /// An immutable report plan.
    Plan,
    /// A computed report result.
    Result,
}

/// The envelope: `(role, handle, generation, source)`.
#[derive(Debug, PartialEq, Eq, Structural, Clone, Copy)]
pub struct Envelope {
    /// Plan or result.
    pub role: Role,
    /// Registry handle.
    pub handle: u64,
    /// Source generation it was minted against.
    pub generation: u32,
    /// Source identity.
    pub source: SourceId,
}

/// The text of a role in an envelope.
pub open spec fn role_text(r: Role) -> Seq<char> {
    match r {
        Role::Plan => "plan"@,
        Role::Result => "result"@,
    }
}

/// The role that a text names in an envelope.
pub open spec fn role_of(t: Seq<char>) -> Option<Role> {
    if t == "plan"@ {
        Some(Role::Plan)
    } else if t == "result"@ {
        Some(Role::Result)
    } else {
        None
    }
}

/// The envelope a payload carries: a `"$kind": "lance-abi"` object whose
/// role is `plan` or `result` and whose handle, generation and source are
/// unsigned integers, the last two within 32 bits.
pub open spec fn envelope_of(v: Json) -> Option<Envelope> {
    if text_member(v, "$kind"@) != Some("lance-abi"@) {
        None
    } else {
        match text_member(v, "role"@) {
            None => None,
            Some(t) => match (role_of(t), unsigned_member(v, "handle"@), unsigned_member(v, "generation"@), unsigned_member(v, "source"@)) {
                (Some(role), Some(h), Some(g), Some(s)) => if g <= u32::MAX && s <= u32::MAX {
                    Some(Envelope { role, handle: h, generation: g as u32, source: SourceId(s as u32) })
                } else {
                    None
                },
                _ => None,
            },
        }
    }
}

/// The message a payload that is no envelope is refused with.
pub open spec fn bad_envelope_message() -> Seq<char> {
    "expected a {\"$kind\":\"lance-abi\"} envelope"@
}

/// `v` is the JSON form of `e`: exactly the five members `$kind`,
/// `generation`, `handle`, `role` and `source`, in that order.
pub open spec fn is_envelope_json(v: Json, e: Envelope) -> bool {
    match v {
        Json::Object(entries) => {
            let s = entries@;
            &&& s.len() == 5
            &&& s[0].0@ == "$kind"@ && s[0].1.text() == Some("lance-abi"@)
            &&& s[1].0@ == "generation"@ && s[1].1.unsigned() == Some(e.generation as u64)
            &&& s[2].0@ == "handle"@ && s[2].1.unsigned() == Some(e.handle)
            &&& s[3].0@ == "role"@ && s[3].1.text() == Some(role_text(e.role))
            &&& s[4].0@ == "source"@ && s[4].1.unsigned() == Some(e.source.0 as u64)
        },
        _ => false,
    }
}

fn unsigned(n: u64) -> (r: Json)
    ensures
        r.unsigned() == Some(n),
{
    Json::Number(JsonNumber::PosInt(n))
}

fn text(s: &str) -> (r: Json)
    ensures
        r.text() == Some(s@),
{
    Json::String(String::from_str(s))
}

fn member(key: &str, value: Json) -> (r: (String, Json))
    ensures
        r.0@ == key@,
        r.1 == value,
{
    (String::from_str(key), value)
}

fn bad_envelope() -> (e: Z8Error)
    ensures
        e.message() == bad_envelope_message(),
{
    Z8Error::Internal(String::from_str("expected a {\"$kind\":\"lance-abi\"} envelope"))
}

impl Envelope {
    /// The source at the generation the handle was minted against.
    pub fn source_ref(&self) -> (r: crate::plan::SourceRef)
        ensures
            r == (crate::plan::SourceRef { id: self.source, generation: self.generation }),
    {
        crate::plan::SourceRef { id: self.source, generation: self.generation }
    }

    /// The payload JSON of the envelope.
    pub fn to_json(self) -> (r: Json)
        ensures
            is_envelope_json(r, self),
    {
        let role = match self.role {
            Role::Plan => "plan",
            Role::Result => "result",
        };
        let mut entries = Vec::new();
        entries.push(member("$kind", text("lance-abi")));
        entries.push(member("generation", unsigned(self.generation as u64)));
        entries.push(member("handle", unsigned(self.handle)));
        entries.push(member("role", text(role)));
        entries.push(member("source", unsigned(self.source.0 as u64)));
        Json::Object(entries)
    }

    /// Parses a payload JSON.
    pub fn from_json(v: &Json) -> (r: Result<Envelope, Z8Error>)
        ensures
            envelope_of(*v) matches Some(e) ==> r == Ok::<Envelope, Z8Error>(e),
            envelope_of(*v) is None ==> (r matches Err(e) && e.message() == bad_envelope_message()),
    {
        let kind = match v.get("$kind") {
            Some(k) => k.as_str(),
            None => None,
        };
        let is_abi = match kind {
            Some(k) => crate::text::str_eq(k, "lance-abi"),
            None => false,
        };
        if !is_abi {
            return Err(bad_envelope());
        }
        let role_text = match v.get("role") {
            Some(k) => k.as_str(),
            None => None,
        };
        let role = match role_text {
            Some(t) => if crate::text::str_eq(t, "plan") {
                Role::Plan
            } else if crate::text::str_eq(t, "result") {
                Role::Result
            } else {
                return Err(bad_envelope());
            },
            None => return Err(bad_envelope()),
        };
        let handle = match crate::json::unsigned_of(v, "handle") {
            Some(h) => h,
            None => return Err(bad_envelope()),
        };
        let generation = match crate::json::unsigned_of(v, "generation") {
            Some(g) => g,
            None => return Err(bad_envelope()),
        };
        if generation > 0xffff_ffffu64 {
            return Err(bad_envelope());
        }
        let source = match crate::json::unsigned_of(v, "source") {
            Some(s) => s,
            None => return Err(bad_envelope()),
        };
        if source > 0xffff_ffffu64 {
            return Err(bad_envelope());
        }
        Ok(Envelope { role, handle, generation: generation as u32, source: SourceId(source as u32) })
    }
}

/// Reading back the JSON form of an envelope gives the envelope.
pub proof fn law_envelope_round_trip(v: Json, e: Envelope)
    requires
        is_envelope_json(v, e),
    ensures
        envelope_of(v) == Some(e),
{
    let s = v->Object_0@;
    reveal_strlit("$kind");
    reveal_strlit("generation");
    reveal_strlit("handle");
    reveal_strlit("role");
    reveal_strlit("source");
    reveal_strlit("plan");
    reveal_strlit("result");
    let s1 = s.drop_first();
    let s2 = s1.drop_first();
    let s3 = s2.drop_first();
    let s4 = s3.drop_first();
    assert(s1[0] == s[1] && s2[0] == s[2] && s3[0] == s[3] && s4[0] == s[4]);
    assert(s1.len() == 4 && s2.len() == 3 && s3.len() == 2 && s4.len() == 1);
    assert("$kind"@[0] == '$' && "generation"@[0] == 'g' && "handle"@[0] == 'h'
        && "role"@[0] == 'r' && "source"@[0] == 's');
    assert("plan"@[0] == 'p' && "result"@[0] == 'r');
    assert(role_of(role_text(e.role)) == Some(e.role));
    assert("$kind"@ != "role"@ && "generation"@ != "role"@ && "handle"@ != "role"@);
    assert("$kind"@ != "handle"@ && "generation"@ != "handle"@);
    assert("$kind"@ != "generation"@);
    assert("$kind"@ != "source"@ && "generation"@ != "source"@ && "handle"@ != "source"@
        && "role"@ != "source"@);
    assert(crate::json::lookup(s, "role"@) == crate::json::lookup(s1, "role"@));
    assert(crate::json::lookup(s1, "role"@) == crate::json::lookup(s2, "role"@));
    assert(crate::json::lookup(s2, "role"@) == crate::json::lookup(s3, "role"@));
    assert(crate::json::lookup(s3, "role"@) == Some(s[3].1));
    assert(crate::json::lookup(s, "handle"@) == crate::json::lookup(s1, "handle"@));
    assert(crate::json::lookup(s1, "handle"@) == crate::json::lookup(s2, "handle"@));
    assert(crate::json::lookup(s2, "handle"@) == Some(s[2].1));
    assert(crate::json::lookup(s, "generation"@) == crate::json::lookup(s1, "generation"@));
    assert(crate::json::lookup(s1, "generation"@) == Some(s[1].1));
    assert(crate::json::lookup(s, "source"@) == crate::json::lookup(s1, "source"@));
    assert(crate::json::lookup(s1, "source"@) == crate::json::lookup(s2, "source"@));
    assert(crate::json::lookup(s2, "source"@) == crate::json::lookup(s3, "source"@));
    assert(crate::json::lookup(s3, "source"@) == crate::json::lookup(s4, "source"@));
    assert(crate::json::lookup(s4, "source"@) == Some(s[4].1));
    assert(text_member(v, "$kind"@) == Some("lance-abi"@));
    assert(text_member(v, "role"@) == Some(role_text(e.role)));
    assert(unsigned_member(v, "handle"@) == Some(e.handle));
    assert(unsigned_member(v, "generation"@) == Some(e.generation as u64));
    assert(unsigned_member(v, "source"@) == Some(e.source.0 as u64));
}

} // verus!
