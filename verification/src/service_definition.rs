//! The logical address of a service: a validated hostname and a port.

use vstd::prelude::*;
use vstd::string::StrSliceExecFns;

verus! {

/// A character the hostname validator accepts: ASCII letters and digits,
/// the separators '.' and '-', the underscore, and the wildcard '*'.
pub open spec fn is_valid_hostname_char(c: char) -> bool {
    let u = c as u32;
    ||| ('a' as u32) <= u <= ('z' as u32)
    ||| ('A' as u32) <= u <= ('Z' as u32)
    ||| ('0' as u32) <= u <= ('9' as u32)
    ||| u == ('.' as u32)
    ||| u == ('-' as u32)
    ||| u == ('_' as u32)
    ||| u == ('*' as u32)
}

/// A hostname is valid when every character is drawn from the permitted
/// alphabet. The validator is deliberately permissive beyond that: it does
/// not police label lengths or label placement.
pub open spec fn is_valid_hostname(s: Seq<char>) -> bool {
    forall|i: int| 0 <= i < s.len() ==> is_valid_hostname_char(#[trigger] s[i])
}

/// The error returned when a hostname fails validation.
#[derive(Clone, Copy, Debug, PartialEq, Eq, Structural)]
pub enum ServiceDefinitionError {
    InvalidHostname,
}

/// A gRPC service, named by `hostname` and `port`. The hostname is resolved
/// periodically to the concrete addresses of the service's servers; the port
/// is attached to every resolved address.
///
/// Construction through [`ServiceDefinition::from_parts`] validates the
/// hostname, so a definition in hand always satisfies [`ServiceDefinition::wf`].
#[derive(Clone, Debug)]
pub struct ServiceDefinition {
    /// The hostname of the service.
    pub hostname: String,
    /// The service port.
    pub port: u16,
}

/// Decide whether every character of `s` belongs to the hostname alphabet.
pub fn is_valid_hostname_str(s: &str) -> (r: bool)
    ensures
        r == is_valid_hostname(s@),
{
    let len: usize = s.unicode_len();
    let mut i: usize = 0;
    while i < len
        invariant
            0 <= i <= len,
            len == s@.len(),
            forall|j: int| 0 <= j < i ==> is_valid_hostname_char(#[trigger] s@[j]),
        decreases len - i,
    {
        let c = s.get_char(i);
        let u = c as u32;
        let ok = (('a' as u32) <= u && u <= ('z' as u32)) || (('A' as u32) <= u && u <= ('Z' as u32))
            || (('0' as u32) <= u && u <= ('9' as u32)) || u == ('.' as u32) || u == ('-' as u32)
            || u == ('_' as u32) || u == ('*' as u32);
        if !ok {
            assert(!is_valid_hostname_char(s@[i as int]));
            return false;
        }
        i += 1;
    }
    true
}

impl ServiceDefinition {
    /// The definition's hostname passed validation.
    pub open spec fn wf(&self) -> bool {
        is_valid_hostname(self.hostname@)
    }

    /// Create a [`ServiceDefinition`] from a `hostname` and a `port`.
    ///
    /// Succeeds exactly when the hostname is valid, and then returns a
    /// definition carrying the two parts unchanged.
    pub fn from_parts(hostname: &str, port: u16) -> (r: Result<Self, ServiceDefinitionError>)
        ensures
            r is Ok <==> is_valid_hostname(hostname@),
            r matches Ok(sd) ==> sd.hostname@ == hostname@ && sd.port == port && sd.wf(),
            r matches Err(e) ==> e is InvalidHostname,
    {
        if is_valid_hostname_str(hostname) {
            Ok(ServiceDefinition { hostname: hostname.to_owned(), port })
        } else {
            Err(ServiceDefinitionError::InvalidHostname)
        }
    }

    /// Get the `hostname` part of a `ServiceDefinition`.
    pub fn hostname(&self) -> (r: &str)
        ensures
            r@ == self.hostname@,
    {
        self.hostname.as_str()
    }

    /// Get the `port` part of a `ServiceDefinition`.
    pub fn port(&self) -> (r: u16)
        ensures
            r == self.port,
    {
        self.port
    }
}

} // verus!
