//! The ephemeral compose override document. For the docker compose
//! backend every stateful operation stages a transient second compose
//! file that forwards the host SSH agent into the configured service; it
//! is re-derived on every use because the host socket path can change
//! between invocations. Rendering is a pure function of the socket and
//! the service name; writing the file is the executor's business.

use vstd::prelude::*;

verus! {

/// The override document text. With an agent socket available, the
/// service mounts it at a fixed path and points `SSH_AUTH_SOCK` at it;
/// without one, the service is mentioned with no additions.
pub open spec fn override_doc(ssh: Option<Seq<char>>, service: Seq<char>) -> Seq<char> {
    match ssh {
        Some(sock) => "services:\n  "@ + service + ":\n    volumes:\n      - "@ + sock
            + ":/ssh-agent\n    environment:\n      - SSH_AUTH_SOCK=/ssh-agent\n"@,
        None => "services:\n  "@ + service + ": {}\n"@,
    }
}

/// Renders the override document.
pub fn render_override(ssh: &Option<String>, service: &String) -> (r: String)
    ensures
        r@ == override_doc(crate::command::opt_view(*ssh), service@),
{
    let mut r = String::from_str("services:\n  ");
    r.append(service.as_str());
    match ssh {
        Some(sock) => {
            r.append(":\n    volumes:\n      - ");
            r.append(sock.as_str());
            r.append(":/ssh-agent\n    environment:\n      - SSH_AUTH_SOCK=/ssh-agent\n");
        },
        None => {
            r.append(": {}\n");
        },
    }
    r
}

} // verus!
