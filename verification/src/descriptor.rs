//! The runtime error descriptor and the classification capability.
//!
//! Classification turns an error value into a detached, owned snapshot:
//! the parsed application status code, the composed error code, a short
//! fingerprint of the diagnostic text, and the two messages — one safe to
//! show an untrusted caller, one for internal logs only. The two renderings
//! share a frame, `[<code>-<fingerprint>] <message>`, and the client-facing
//! one never draws on the server message.

use vstd::prelude::*;
use vstd::string::StringExecFns;
use crate::fingerprint::{fingerprint_of, fingerprint_token};
use crate::status::StatusParse;

verus! {

/// The structured outcome of classifying one error value. It holds all of
/// its fields by value and keeps no reference to the error it was built
/// from.
pub struct ErrorInfo<T> {
    /// The application status code, parsed from the schema's literal text.
    pub app_code: T,
    /// The composed error code: the type's prefix followed by the
    /// variant's suffix.
    pub code: &'static str,
    /// The fingerprint token of the server message, for log correlation.
    pub hash: String,
    /// The client-facing message; empty when the schema declared none.
    pub client_msg: &'static str,
    /// The full server-side diagnostic text.
    pub server_msg: String,
}

impl<T: StatusParse> ErrorInfo<T> {
    /// Builds the descriptor for one classified error: parses `app_code`
    /// into the status type, fingerprints the rendered diagnostic text,
    /// and stores both messages. A status text the status type rejects is
    /// an authoring error in the schema, not a runtime condition, so it is
    /// ruled out up front rather than handled.
    pub fn new(
        app_code: &str,
        code: &'static str,
        client_msg: &'static str,
        server_msg: String,
    ) -> (r: Self)
        requires
            T::spec_parse(app_code@) is Some,
        ensures
            Some(r.app_code) == T::spec_parse(app_code@),
            r.code@ == code@,
            r.client_msg@ == client_msg@,
            r.server_msg@ == server_msg@,
            r.hash@ == fingerprint_of(server_msg@),
    {
        let hash = fingerprint_token(server_msg.as_str());
        let parsed = T::parse_status(app_code);
        let app_code = parsed.unwrap();
        Self { app_code, code, hash, client_msg, server_msg }
    }
}

/// The rendering frame shared by both trust boundaries:
/// `[<code>-<fingerprint>] <message>`.
pub open spec fn rendered(code: Seq<char>, hash: Seq<char>, msg: Seq<char>) -> Seq<char> {
    "["@ + code + "-"@ + hash + "] "@ + msg
}

impl<T> ErrorInfo<T> {
    /// The client-facing rendering: safe to return to an untrusted
    /// caller. It is built from the code, the fingerprint and the client
    /// message alone; the server message does not enter it.
    pub fn client_string(&self) -> (r: String)
        ensures
            r@ == rendered(self.code@, self.hash@, self.client_msg@),
    {
        let mut out = String::from_str("[");
        out.append(self.code);
        out.append("-");
        out.append(self.hash.as_str());
        out.append("] ");
        out.append(self.client_msg);
        proof {
            assert(out@ =~= rendered(self.code@, self.hash@, self.client_msg@));
        }
        out
    }

    /// The server-facing rendering, for internal logs only: the same
    /// frame around the full diagnostic text.
    pub fn server_string(&self) -> (r: String)
        ensures
            r@ == rendered(self.code@, self.hash@, self.server_msg@),
    {
        let mut out = String::from_str("[");
        out.append(self.code);
        out.append("-");
        out.append(self.hash.as_str());
        out.append("] ");
        out.append(self.server_msg.as_str());
        proof {
            assert(out@ =~= rendered(self.code@, self.hash@, self.server_msg@));
        }
        out
    }
}

/// Law: the client-facing rendering is determined by the code, the
/// fingerprint and the client message alone. Two descriptors that agree on
/// those three render identically for clients, whatever their server
/// messages hold — so no part of a server message ever reaches a client
/// through that rendering.
pub proof fn lemma_client_rendering_hides_server_message<T>(a: ErrorInfo<T>, b: ErrorInfo<T>)
    requires
        a.code@ == b.code@,
        a.hash@ == b.hash@,
        a.client_msg@ == b.client_msg@,
    ensures
        rendered(a.code@, a.hash@, a.client_msg@) == rendered(b.code@, b.hash@, b.client_msg@),
{
}

/// The classification capability: any type with a generated classification
/// routine exposes it uniformly here. Callers depend on this trait alone,
/// never on how the routine was produced.
pub trait ToErrorInfo {
    /// The application status-code type the schema declared for the
    /// owning error type.
    type T: StatusParse;

    /// Produces the descriptor for this error value.
    fn to_error_info(&self) -> ErrorInfo<Self::T>;
}

} // verus!
