//! Assembly of the commit message from the values of the form's fields.

use vstd::prelude::*;
use vstd::string::StringExecFns;

verus! {

/// The first line: `type: description`, or `type(scope): description`
/// where the scope is not empty.
pub open spec fn header(ty: Seq<char>, scope: Seq<char>, description: Seq<char>) -> Seq<char> {
    if scope.len() == 0 {
        ty + seq![':', ' '] + description
    } else {
        ty + seq!['('] + scope + seq![')', ':', ' '] + description
    }
}

/// `msg` followed by a blank line and `section`, or `msg` alone where the
/// section is empty.
pub open spec fn with_section(msg: Seq<char>, section: Seq<char>) -> Seq<char> {
    if section.len() == 0 {
        msg
    } else {
        msg + seq!['\n', '\n'] + section
    }
}

/// The whole message: the header, then the body and the footer, each set
/// off by a blank line and each left out if empty. Nothing is trimmed.
pub open spec fn message(
    ty: Seq<char>,
    scope: Seq<char>,
    description: Seq<char>,
    body: Seq<char>,
    footer: Seq<char>,
) -> Seq<char> {
    with_section(with_section(header(ty, scope, description), body), footer)
}

/// Builds the commit message from the five field values, taken verbatim.
pub fn assemble(ty: &str, scope: &str, description: &str, body: &str, footer: &str) -> (msg:
    String)
    ensures
        msg@ == message(ty@, scope@, description@, body@, footer@),
{
    proof {
        reveal_strlit(": ");
        reveal_strlit("(");
        reveal_strlit("): ");
        reveal_strlit("\n\n");
    }
    let mut msg = String::from_str(ty);
    if scope.is_empty() {
        msg.append(": ");
    } else {
        msg.append("(");
        msg.append(scope);
        msg.append("): ");
    }
    msg.append(description);
    if !body.is_empty() {
        msg.append("\n\n");
        msg.append(body);
    }
    if !footer.is_empty() {
        msg.append("\n\n");
        msg.append(footer);
    }
    msg
}

} // verus!
