//! The name of the log that a turn's agent writes to.
use vstd::prelude::*;
use vstd::string::*;

verus! {

/// Whether a character is a hexadecimal digit in lower case.
pub open spec fn hex_digit(c: char) -> bool {
    '0' <= c <= '9' || 'a' <= c <= 'f'
}

/// Whether a text is a random UUID in its hyphenated form: five groups of hexadecimal digits,
/// among which stand the version and the variant.
pub open spec fn random_uuid(s: Seq<char>) -> bool {
    &&& s.len() == 36
    &&& forall|i: int|
        0 <= i < 36 ==> if i == 8 || i == 13 || i == 18 || i == 23 {
            #[trigger] s[i] == '-'
        } else {
            hex_digit(s[i])
        }
    &&& s[14] == '4'
    &&& s[19] == '8' || s[19] == '9' || s[19] == 'a' || s[19] == 'b'
}

/// Calls `uuid::Uuid::new_v4` and its `Display`. Claimed: the text is a random UUID in its
/// hyphenated form, in lower case. Which one it is rests on chance.
#[verifier::external_body]
fn new_uuid() -> (r: String)
    ensures
        random_uuid(r@),
{
    uuid::Uuid::new_v4().to_string()
}

/// The name of the log of the turn with that id.
pub fn log_name(id: &str) -> (r: String)
    ensures
        r@ == "antigravity-"@ + id@,
{
    let mut name = "antigravity-".to_owned();
    name.append(id);
    name
}

/// The name of the log of a new turn.
pub fn new_log_name() -> (r: String)
    ensures
        exists|id: Seq<char>| #[trigger] random_uuid(id) && r@ == "antigravity-"@ + id,
{
    let id = new_uuid();
    log_name(id.as_str())
}

/// The name of the file that a log stands in.
pub fn log_file_name(log_name: &str) -> (r: String)
    ensures
        r@ == "agent-"@ + log_name@ + ".log"@,
{
    let mut name = "agent-".to_owned();
    name.append(log_name);
    name.append(".log");
    name
}

} // verus!
