use vstd::prelude::*;
use crate::error::{json_quoted, json_string};

verus! {

/// The decimal digit for a value below ten.
pub open spec fn digit_char(d: nat) -> char {
    if d < 10 { (('0' as u8) + (d as u8)) as char } else { '?' }
}

/// The decimal digits of a natural number, without leading zeros.
pub open spec fn decimal_digits(n: nat) -> Seq<char>
    decreases n,
{
    if n < 10 {
        seq![digit_char(n)]
    } else {
        decimal_digits(n / 10).push(digit_char(n % 10))
    }
}

/// The decimal text of an integer, with a leading `-` when it is negative.
pub open spec fn decimal_text(i: int) -> Seq<char> {
    if i < 0 {
        seq!['-'] + decimal_digits((-i) as nat)
    } else {
        decimal_digits(i as nat)
    }
}

/// Relies on `i64::to_string` (its `Display`): the decimal text of the number.
#[verifier::external_body]
fn integer_text(n: i64) -> (r: String)
    ensures
        r@ == decimal_text(n as int),
{
    n.to_string()
}

/// The name of the file, inside the repository directory, that holds the snapshot.
pub open spec fn snapshot_file_name() -> Seq<char> {
    "GIT_COMMIT"@
}

/// What stands for the branch name when HEAD is detached.
pub open spec fn detached_label() -> Seq<char> {
    "HEAD detached"@
}

/// The state of HEAD after a successful synchronization.
pub struct CommitSnapshot {
    pub branch: String,
    pub id: String,
    pub message: String,
    pub author: String,
    pub email: String,
    pub timestamp: i64,
}

/// The pretty-printed JSON document of a snapshot, keys in sorted order and
/// indented by two spaces.
pub open spec fn snapshot_document(
    branch: Seq<char>,
    id: Seq<char>,
    message: Seq<char>,
    author: Seq<char>,
    email: Seq<char>,
    timestamp: int,
) -> Seq<char> {
    "{\n  \"branch\": "@ + json_quoted(branch)
        + ",\n  \"current_commit\": {\n    \"author\": "@ + json_quoted(author)
        + ",\n    \"email\": "@ + json_quoted(email)
        + ",\n    \"id\": "@ + json_quoted(id)
        + ",\n    \"message\": "@ + json_quoted(message)
        + ",\n    \"timestamp\": "@ + decimal_text(timestamp)
        + "\n  }\n}"@
}

/// The branch name recorded for HEAD: its short name, or `HEAD detached`
/// when it has none.
pub fn branch_label(shorthand: Option<String>) -> (r: String)
    ensures
        r@ == match shorthand {
            Some(s) => s@,
            None => detached_label(),
        },
{
    match shorthand {
        Some(s) => s,
        None => String::from_str("HEAD detached"),
    }
}

/// The name of the snapshot file.
pub fn snapshot_file() -> (r: String)
    ensures
        r@ == snapshot_file_name(),
{
    String::from_str("GIT_COMMIT")
}

impl CommitSnapshot {
    /// The snapshot as the pretty-printed JSON document that is written to disk.
    pub fn to_json(&self) -> (r: String)
        ensures
            r@ == snapshot_document(
                self.branch@,
                self.id@,
                self.message@,
                self.author@,
                self.email@,
                self.timestamp as int,
            ),
    {
        let r = String::from_str("{\n  \"branch\": ");
        let r = r.concat(json_string(self.branch.as_str()).as_str());
        let r = r.concat(",\n  \"current_commit\": {\n    \"author\": ");
        let r = r.concat(json_string(self.author.as_str()).as_str());
        let r = r.concat(",\n    \"email\": ");
        let r = r.concat(json_string(self.email.as_str()).as_str());
        let r = r.concat(",\n    \"id\": ");
        let r = r.concat(json_string(self.id.as_str()).as_str());
        let r = r.concat(",\n    \"message\": ");
        let r = r.concat(json_string(self.message.as_str()).as_str());
        let r = r.concat(",\n    \"timestamp\": ");
        let r = r.concat(integer_text(self.timestamp).as_str());
        let r = r.concat("\n  }\n}");
        assert(r@ =~= snapshot_document(
            self.branch@,
            self.id@,
            self.message@,
            self.author@,
            self.email@,
            self.timestamp as int,
        ));
        r
    }
}

} // verus!
