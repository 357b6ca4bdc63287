use vstd::prelude::*;
use vstd::string::StringExecFns;

verus! {

/// Relies on `nanoid::format` with the url-safe alphabet and the default
/// random source: the returned identifier holds exactly `size` characters
/// drawn from that alphabet. The characters themselves are random, so
/// nothing more is stated of them.
#[verifier::external_body]
fn random_token(size: usize) -> (r: String)
    ensures
        r@.len() == size as nat,
{
    nanoid::format(nanoid::rngs::default, &nanoid::alphabet::SAFE, size)
}

/// A freshly generated client identifier: the broker prefix followed by a
/// 21 character random token. Assigned to clients that connect without a
/// client identifier of their own.
pub fn generate_client_id() -> (r: String)
    ensures
        r@.len() == 31,
        r@.subrange(0, 10) == "sage_mqtt-"@,
{
    proof {
        reveal_strlit("sage_mqtt-");
    }
    let mut id = String::from_str("sage_mqtt-");
    let token = random_token(21);
    id.append(token.as_str());
    proof {
        assert(id@.subrange(0, 10) =~= "sage_mqtt-"@);
    }
    id
}

/// A freshly generated internal session identifier: a fixed prefix followed
/// by a 10 character random token. These identifiers never appear on the
/// wire; they only tell one incarnation of a session from another.
pub fn generate_session_id() -> (r: String)
    ensures
        r@.len() == 18,
        r@.subrange(0, 8) == "session_"@,
{
    proof {
        reveal_strlit("session_");
    }
    let mut id = String::from_str("session_");
    let token = random_token(10);
    id.append(token.as_str());
    proof {
        assert(id@.subrange(0, 8) =~= "session_"@);
    }
    id
}

} // verus!
