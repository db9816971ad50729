//! The server side of the SOCKS5 handshake (RFC 1928, RFC 1929), as functions from the
//! bytes a client sent to what the server answers and decides. Reading and writing the
//! connection is left to the caller: each `read_*`/`get_*` function reads its message
//! from the front of the bytes received so far, and reports a field it holds too few bytes
//! of as `Truncated`, so that the caller knows to wait for more.
use vstd::prelude::*;
use vstd::string::StringExecFns;
use vstd::utf8::{encode_utf8, valid_utf8};

use crate::error::{AddrError, Socks5Error, Socks5Field, VpnError};
use crate::socks5::command::consts::{
    SOCKS5_AUTH_METHOD_NONE, SOCKS5_AUTH_METHOD_NOT_ACCEPTABLE, SOCKS5_AUTH_METHOD_PASSWORD,
    SOCKS5_AUTH_VERSION, SOCKS5_REPLY_GENERAL_FAILURE, SOCKS5_REPLY_SUCCEEDED, SOCKS5_VERSION,
};
use crate::socks5::command::{command_code, command_of_code, Socks5Command};
use crate::util::bytes::{copy_range, push_all, string_from_utf8};
use crate::util::client_config::{auth_method_code, AuthInfo, AuthType};
use crate::util::target_addr::{
    addr_body, addr_bytes, addr_error_incomplete, addr_type, addr_well_formed,
    lemma_address_error_stable, lemma_address_prefix_stable, lemma_address_roundtrip,
    parse_address, read_address, AddrModel, SocketAddr, TargetAddr,
};

verus! {

/// A SOCKS5 connection of the local server.
pub struct Socks5Stream<S> {
    pub stream: S,
}

impl<S> Socks5Stream<S> {
    pub fn new(stream: S) -> (r: Self)
        ensures
            r.stream == stream,
    {
        Self { stream }
    }
}

/// The method-selection message `VER NMETHODS METHODS` at the front of `s`: the offered
/// methods and the message's length.
pub open spec fn spec_get_methods(s: Seq<u8>) -> Result<(Seq<u8>, int), VpnError> {
    if s.len() < 2 {
        Err(VpnError::Truncated(Socks5Field::MethodsHeader))
    } else if s[0] != SOCKS5_VERSION {
        Err(VpnError::Socks5Error(Socks5Error::UnsupportedSocksVersion(s[0])))
    } else if s.len() < 2 + s[1] {
        Err(VpnError::Truncated(Socks5Field::Methods))
    } else {
        Ok((s.subrange(2, 2 + s[1]), 2 + s[1]))
    }
}

/// Reads the methods a client offers; returns them with the number of bytes they took.
pub fn get_methods(buf: &[u8]) -> (r: Result<(Vec<u8>, usize), VpnError>)
    ensures
        match spec_get_methods(buf@) {
            Ok((methods, n)) => r matches Ok((v, k)) && v@ == methods && k == n,
            Err(e) => r == Err::<(Vec<u8>, usize), VpnError>(e),
        },
{
    if buf.len() < 2 {
        return Err(VpnError::Truncated(Socks5Field::MethodsHeader));
    }
    let version = buf[0];
    let methods_len = buf[1] as usize;
    if version != SOCKS5_VERSION {
        return Err(VpnError::Socks5Error(Socks5Error::UnsupportedSocksVersion(version)));
    }
    if buf.len() < 2 + methods_len {
        return Err(VpnError::Truncated(Socks5Field::Methods));
    }
    let methods = copy_range(buf, 2, 2 + methods_len);
    Ok((methods, 2 + methods_len))
}

/// The method the server picks for the offered methods: none when it demands no
/// authentication, the password method when it demands one and the client offers it.
pub open spec fn chosen_method(methods: Seq<u8>, auth_type: AuthType) -> Option<u8> {
    match auth_type {
        AuthType::NoAuth => Some(SOCKS5_AUTH_METHOD_NONE),
        AuthType::Auth(_) => if methods.contains(SOCKS5_AUTH_METHOD_PASSWORD) {
            Some(SOCKS5_AUTH_METHOD_PASSWORD)
        } else {
            None
        },
    }
}

fn contains_byte(v: &Vec<u8>, b: u8) -> (r: bool)
    ensures
        r == v@.contains(b),
{
    let mut i: usize = 0;
    while i < v.len()
        invariant
            i <= v@.len(),
            forall|j: int| 0 <= j < i ==> v@[j] != b,
        decreases v@.len() - i,
    {
        if v[i] == b {
            assert(v@[i as int] == b);
            return true;
        }
        i = i + 1;
    }
    false
}

/// Decides on the methods a client offered. Returns the reply to send (`VER METHOD`, with
/// `0xff` when no method is acceptable) and whether the handshake may go on.
pub fn can_accept_method(client_methods: Vec<u8>, auth_type: &AuthType) -> (r: (
    Vec<u8>,
    Result<(), VpnError>,
))
    ensures
        match chosen_method(client_methods@, *auth_type) {
            Some(m) => r.0@ == seq![SOCKS5_VERSION, m] && r.1 is Ok,
            None => r.0@ == seq![SOCKS5_VERSION, SOCKS5_AUTH_METHOD_NOT_ACCEPTABLE] && (r.1 matches Err(
                VpnError::Socks5Error(Socks5Error::AuthMethodUnacceptable(v)),
            ) && v@ == client_methods@),
        },
        *auth_type is NoAuth ==> r.0@ == seq![SOCKS5_VERSION, SOCKS5_AUTH_METHOD_NONE] && r.1 is Ok,
        (*auth_type is Auth && client_methods@.contains(SOCKS5_AUTH_METHOD_PASSWORD)) ==> r.0@
            == seq![SOCKS5_VERSION, SOCKS5_AUTH_METHOD_PASSWORD] && r.1 is Ok,
        (*auth_type is Auth && !client_methods@.contains(SOCKS5_AUTH_METHOD_PASSWORD)) ==> r.0@
            == seq![SOCKS5_VERSION, SOCKS5_AUTH_METHOD_NOT_ACCEPTABLE] && r.1 is Err,
{
    let method_supported;
    match auth_type {
        AuthType::Auth(_) => {
            if contains_byte(&client_methods, SOCKS5_AUTH_METHOD_PASSWORD) {
                method_supported = SOCKS5_AUTH_METHOD_PASSWORD;
            } else {
                let reply = vec![SOCKS5_VERSION, SOCKS5_AUTH_METHOD_NOT_ACCEPTABLE];
                assert(reply@ =~= seq![SOCKS5_VERSION, SOCKS5_AUTH_METHOD_NOT_ACCEPTABLE]);
                return (
                    reply,
                    Err(VpnError::Socks5Error(Socks5Error::AuthMethodUnacceptable(client_methods))),
                );
            }
        },
        AuthType::NoAuth => {
            method_supported = SOCKS5_AUTH_METHOD_NONE;
        },
    }
    let reply = vec![SOCKS5_VERSION, method_supported];
    assert(reply@ =~= seq![SOCKS5_VERSION, method_supported]);
    (reply, Ok(()))
}

/// How the username/password message `VER ULEN UNAME PLEN PASSWD` at the front of `s`
/// reads. Only version 1 of the sub-negotiation exists (RFC 1929).
pub enum CredentialsParse {
    /// Too few bytes for this field.
    Short(Socks5Field),
    /// The username length is zero.
    EmptyUsername,
    /// The password length is zero.
    EmptyPassword,
    /// The version byte is not 1 (checked once both lengths are known to be non-zero).
    BadVersion(u8),
    /// This field is not UTF-8.
    BadUtf8(Socks5Field),
    /// The username bytes, the password bytes and the message's length.
    Parsed(Seq<u8>, Seq<u8>, int),
}

pub open spec fn spec_read_username_password(s: Seq<u8>) -> CredentialsParse {
    if s.len() < 2 {
        CredentialsParse::Short(Socks5Field::UsernameHeader)
    } else if s[1] < 1 {
        CredentialsParse::EmptyUsername
    } else if s.len() < 2 + s[1] {
        CredentialsParse::Short(Socks5Field::Username)
    } else if s.len() < 3 + s[1] {
        CredentialsParse::Short(Socks5Field::PasswordLength)
    } else if s[2 + s[1]] < 1 {
        CredentialsParse::EmptyPassword
    } else if s[0] != SOCKS5_AUTH_VERSION {
        CredentialsParse::BadVersion(s[0])
    } else if s.len() < 3 + s[1] + s[2 + s[1]] {
        CredentialsParse::Short(Socks5Field::Password)
    } else if !valid_utf8(s.subrange(2, 2 + s[1])) {
        CredentialsParse::BadUtf8(Socks5Field::Username)
    } else if !valid_utf8(s.subrange(3 + s[1], 3 + s[1] + s[2 + s[1]])) {
        CredentialsParse::BadUtf8(Socks5Field::Password)
    } else {
        CredentialsParse::Parsed(
            s.subrange(2, 2 + s[1]),
            s.subrange(3 + s[1], 3 + s[1] + s[2 + s[1]]),
            3 + s[1] + s[2 + s[1]],
        )
    }
}

/// Reads the credentials a client sends; returns them with the number of bytes they took.
pub fn read_username_password(buf: &[u8]) -> (r: Result<(AuthInfo, usize), VpnError>)
    ensures
        match spec_read_username_password(buf@) {
            CredentialsParse::Short(f) => r == Err::<(AuthInfo, usize), VpnError>(
                VpnError::Truncated(f),
            ),
            CredentialsParse::BadVersion(v) => r == Err::<(AuthInfo, usize), VpnError>(
                VpnError::Socks5Error(Socks5Error::UnsupportedAuthVersion(v)),
            ),
            CredentialsParse::EmptyUsername => r matches Err(
                VpnError::Socks5Error(Socks5Error::AuthenticationFailed(m)),
            ) && m@ == "Username malformed (0 chars)"@,
            CredentialsParse::EmptyPassword => r matches Err(
                VpnError::Socks5Error(Socks5Error::AuthenticationFailed(m)),
            ) && m@ == "Password malformed (0 chars)"@,
            CredentialsParse::BadUtf8(f) => r == Err::<(AuthInfo, usize), VpnError>(
                VpnError::NotUtf8(f),
            ),
            CredentialsParse::Parsed(user, pass, n) => r matches Ok((info, k)) && encode_utf8(
                info.username@,
            ) == user && encode_utf8(info.password@) == pass && k == n,
        },
{
    if buf.len() < 2 {
        return Err(VpnError::Truncated(Socks5Field::UsernameHeader));
    }
    let user_len = buf[1] as usize;
    if user_len < 1 {
        return Err(
            VpnError::Socks5Error(
                Socks5Error::AuthenticationFailed("Username malformed (0 chars)".to_owned()),
            ),
        );
    }
    if buf.len() < 2 + user_len {
        return Err(VpnError::Truncated(Socks5Field::Username));
    }
    let username = copy_range(buf, 2, 2 + user_len);
    if buf.len() < 3 + user_len {
        return Err(VpnError::Truncated(Socks5Field::PasswordLength));
    }
    let pass_len = buf[2 + user_len] as usize;
    if pass_len < 1 {
        return Err(
            VpnError::Socks5Error(
                Socks5Error::AuthenticationFailed("Password malformed (0 chars)".to_owned()),
            ),
        );
    }
    if buf[0] != SOCKS5_AUTH_VERSION {
        return Err(VpnError::Socks5Error(Socks5Error::UnsupportedAuthVersion(buf[0])));
    }
    if buf.len() < 3 + user_len + pass_len {
        return Err(VpnError::Truncated(Socks5Field::Password));
    }
    let password = copy_range(buf, 3 + user_len, 3 + user_len + pass_len);
    let username = match string_from_utf8(username) {
        Some(u) => u,
        None => return Err(VpnError::NotUtf8(Socks5Field::Username)),
    };
    let password = match string_from_utf8(password) {
        Some(p) => p,
        None => return Err(VpnError::NotUtf8(Socks5Field::Password)),
    };
    Ok((AuthInfo { username, password }, 3 + user_len + pass_len))
}

/// The message of a rejection: `Authentication, rejected(USERNAME, PASSWORD)`.
fn rejection_message(username: &String, password: &String) -> (m: String)
    ensures
        m@ == "Authentication, rejected("@ + username@ + ", "@ + password@ + ")"@,
{
    let mut m = "Authentication, rejected(".to_owned();
    m.append(username.as_str());
    m.append(", ");
    m.append(password.as_str());
    m.append(")");
    m
}

fn same_string(a: &String, b: &String) -> (r: bool)
    ensures
        r == (a@ == b@),
{
    a.eq(b)
}

/// Checks the credentials a client sent against the expected ones. Returns the reply to
/// send (`VER STATUS`, status 0 on success and 1 on failure) and the outcome.
pub fn authenticate(credentials: &AuthInfo, auth_info: &AuthInfo) -> (r: (
    Vec<u8>,
    Result<(), VpnError>,
))
    ensures
        (credentials.username@ == auth_info.username@ && credentials.password@
            == auth_info.password@) ==> r.0@ == seq![SOCKS5_AUTH_VERSION, SOCKS5_REPLY_SUCCEEDED]
            && r.1 is Ok,
        !(credentials.username@ == auth_info.username@ && credentials.password@
            == auth_info.password@) ==> r.0@ == seq![
            SOCKS5_AUTH_VERSION,
            SOCKS5_REPLY_GENERAL_FAILURE,
        ] && (r.1 matches Err(VpnError::Socks5Error(Socks5Error::AuthenticationRejected(m)))
            && m@ == "Authentication, rejected("@ + credentials.username@ + ", "@
            + credentials.password@ + ")"@),
{
    if !(same_string(&credentials.username, &auth_info.username) && same_string(
        &credentials.password,
        &auth_info.password,
    )) {
        let reply = vec![SOCKS5_AUTH_VERSION, SOCKS5_REPLY_GENERAL_FAILURE];
        assert(reply@ =~= seq![SOCKS5_AUTH_VERSION, SOCKS5_REPLY_GENERAL_FAILURE]);
        let message = rejection_message(&credentials.username, &credentials.password);
        return (reply, Err(VpnError::Socks5Error(Socks5Error::AuthenticationRejected(message))));
    }
    let reply = vec![SOCKS5_AUTH_VERSION, SOCKS5_REPLY_SUCCEEDED];
    assert(reply@ =~= seq![SOCKS5_AUTH_VERSION, SOCKS5_REPLY_SUCCEEDED]);
    (reply, Ok(()))
}

/// How the request `VER CMD RSV ATYP DST.ADDR DST.PORT` at the front of `s` reads: the
/// command, the destination and the request's length. Binding is not supported; the
/// reserved byte is not checked.
pub open spec fn spec_read_command(s: Seq<u8>) -> Result<(Socks5Command, AddrModel, int), VpnError> {
    if s.len() < 4 {
        Err(VpnError::Truncated(Socks5Field::RequestHeader))
    } else if s[0] != SOCKS5_VERSION {
        Err(VpnError::Socks5Error(Socks5Error::UnsupportedSocksVersion(s[0])))
    } else {
        match command_of_code(s[1]) {
            None => Err(VpnError::Socks5Error(Socks5Error::SocksCommandNotSupported)),
            Some(Socks5Command::TCPBind) => Err(
                VpnError::Socks5Error(Socks5Error::SocksCommandNotSupported),
            ),
            Some(cmd) => match parse_address(s[3], s.subrange(4, s.len() as int)) {
                Err(e) => Err(VpnError::AddrError(e)),
                Ok((m, n)) => Ok((cmd, m, 4 + n)),
            },
        }
    }
}

/// Reads a client's request; returns the command, the destination and the number of bytes
/// the request took.
pub fn read_command(buf: &[u8]) -> (r: Result<(Socks5Command, TargetAddr, usize), VpnError>)
    ensures
        match spec_read_command(buf@) {
            Ok((cmd, m, n)) => r matches Ok((c, a, k)) && c == cmd && a@ == m && k == n,
            Err(e) => r == Err::<(Socks5Command, TargetAddr, usize), VpnError>(e),
        },
{
    if buf.len() < 4 {
        return Err(VpnError::Truncated(Socks5Field::RequestHeader));
    }
    let version = buf[0];
    let cmd = buf[1];
    let address_type = buf[3];
    if version != SOCKS5_VERSION {
        return Err(VpnError::Socks5Error(Socks5Error::UnsupportedSocksVersion(version)));
    }
    let cmd = match Socks5Command::from_u8(cmd) {
        None => return Err(VpnError::Socks5Error(Socks5Error::SocksCommandNotSupported)),
        Some(cmd) => match cmd {
            Socks5Command::TCPConnect => cmd,
            Socks5Command::UDPAssociate => cmd,
            Socks5Command::TCPBind => return Err(
                VpnError::Socks5Error(Socks5Error::SocksCommandNotSupported),
            ),
        },
    };
    match read_address(&buf[4..buf.len()], address_type) {
        Err(e) => Err(VpnError::AddrError(e)),
        Ok((target_addr, n)) => Ok((cmd, target_addr, 4 + n)),
    }
}

/// What a command asks the server to do: connect (true), associate UDP (false); binding
/// is refused.
pub fn execute_command(cmd: Socks5Command) -> (r: Result<bool, VpnError>)
    ensures
        cmd is TCPBind ==> r == Err::<bool, VpnError>(
            VpnError::Socks5Error(Socks5Error::SocksCommandNotSupported),
        ),
        cmd is TCPConnect ==> r == Ok::<bool, VpnError>(true),
        cmd is UDPAssociate ==> r == Ok::<bool, VpnError>(false),
{
    match cmd {
        Socks5Command::TCPBind => Err(VpnError::Socks5Error(Socks5Error::SocksCommandNotSupported)),
        Socks5Command::TCPConnect => Ok(true),
        Socks5Command::UDPAssociate => Ok(false),
    }
}

/// The reply to a request: `VER REP RSV ATYP BND.ADDR BND.PORT`.
pub open spec fn reply_bytes(rep: u8, bind: AddrModel) -> Seq<u8> {
    seq![SOCKS5_VERSION, rep, 0x00u8] + addr_bytes(bind)
}

/// Builds the reply to a request with reply code `rep` and the bound address.
pub fn new_reply(rep: u8, sock_addr: &SocketAddr) -> (reply: Vec<u8>)
    ensures
        reply@ == reply_bytes(rep, sock_addr@),
{
    let mut reply = vec![SOCKS5_VERSION, rep, 0x00];
    let addr = TargetAddr::Ip(*sock_addr);
    match addr.to_be_bytes() {
        Ok(bytes) => push_all(&mut reply, bytes.as_slice()),
        Err(_) => {},
    }
    assert(reply@ =~= reply_bytes(rep, sock_addr@));
    reply
}

/// The method-selection message a client builds from a list of at most 255 methods reads
/// back as that list, from exactly its own bytes, whatever follows it.
pub proof fn lemma_methods_roundtrip(methods: Seq<u8>, rest: Seq<u8>)
    requires
        methods.len() <= 255,
    ensures
        spec_get_methods(seq![SOCKS5_VERSION, methods.len() as u8] + methods + rest) == Ok::<
            (Seq<u8>, int),
            VpnError,
        >((methods, 2 + methods.len() as int)),
{
    let s = seq![SOCKS5_VERSION, methods.len() as u8] + methods + rest;
    assert(s.subrange(2, 2 + methods.len() as int) =~= methods);
}

/// Once the method-selection message has been read from the bytes received so far, more
/// bytes change nothing.
pub proof fn lemma_methods_prefix_stable(s: Seq<u8>, more: Seq<u8>)
    requires
        spec_get_methods(s) is Ok,
    ensures
        spec_get_methods(s + more) == spec_get_methods(s),
{
    let t = s + more;
    assert(t.subrange(2, 2 + s[1]) =~= s.subrange(2, 2 + s[1]));
}

/// The username/password message built from a non-empty UTF-8 username and password of at
/// most 255 bytes each reads back as those two, from exactly its own bytes, whatever
/// follows it.
pub proof fn lemma_credentials_roundtrip(user: Seq<u8>, pass: Seq<u8>, rest: Seq<u8>)
    requires
        1 <= user.len() <= 255,
        1 <= pass.len() <= 255,
        valid_utf8(user),
        valid_utf8(pass),
    ensures
        spec_read_username_password(
            seq![SOCKS5_AUTH_VERSION, user.len() as u8] + user + seq![pass.len() as u8] + pass
                + rest,
        ) == CredentialsParse::Parsed(user, pass, 3 + user.len() as int + pass.len() as int),
{
    let s = seq![SOCKS5_AUTH_VERSION, user.len() as u8] + user + seq![pass.len() as u8] + pass
        + rest;
    let ul = user.len() as int;
    assert(s[1] == ul);
    assert(s[2 + ul] == pass.len());
    assert(s.subrange(2, 2 + ul) =~= user);
    assert(s.subrange(3 + ul, 3 + ul + pass.len()) =~= pass);
}

/// Once credentials have been read from the bytes received so far, more bytes change
/// nothing.
pub proof fn lemma_credentials_prefix_stable(s: Seq<u8>, more: Seq<u8>)
    requires
        spec_read_username_password(s) is Parsed,
    ensures
        spec_read_username_password(s + more) == spec_read_username_password(s),
{
    let t = s + more;
    let ul = s[1] as int;
    let pl = s[2 + ul] as int;
    assert(t.subrange(2, 2 + ul) =~= s.subrange(2, 2 + ul));
    assert(t.subrange(3 + ul, 3 + ul + pl) =~= s.subrange(3 + ul, 3 + ul + pl));
}

/// A connect or UDP-associate request for a well-formed destination, with any reserved
/// byte, reads back as that command and destination, from exactly its own bytes, whatever
/// follows it.
pub proof fn lemma_request_roundtrip(cmd: Socks5Command, rsv: u8, m: AddrModel, rest: Seq<u8>)
    requires
        !(cmd is TCPBind),
        addr_well_formed(m),
    ensures
        spec_read_command(seq![SOCKS5_VERSION, command_code(cmd), rsv] + addr_bytes(m) + rest)
            == Ok::<(Socks5Command, AddrModel, int), VpnError>(
            (cmd, m, 3 + addr_bytes(m).len() as int),
        ),
{
    let s = seq![SOCKS5_VERSION, command_code(cmd), rsv] + addr_bytes(m) + rest;
    assert(s[3] == addr_type(m));
    assert(s.subrange(4, s.len() as int) =~= addr_body(m) + rest);
    lemma_address_roundtrip(m, rest);
}

/// Once a request has been read from the bytes received so far, more bytes change nothing.
pub proof fn lemma_request_prefix_stable(s: Seq<u8>, more: Seq<u8>)
    requires
        spec_read_command(s) is Ok,
    ensures
        spec_read_command(s + more) == spec_read_command(s),
{
    let t = s + more;
    let body = s.subrange(4, s.len() as int);
    assert(t.subrange(4, t.len() as int) =~= body + more);
    lemma_address_prefix_stable(s[3], body, more);
}

/// An error of reading a message that only says the bytes received so far end before the
/// message does: more bytes may still make it readable.
pub open spec fn incomplete(e: VpnError) -> bool {
    match e {
        VpnError::Truncated(_) => true,
        VpnError::AddrError(a) => addr_error_incomplete(a),
        _ => false,
    }
}

/// Whether an error of reading a message is for want of bytes, so that the caller reads
/// more and tries again.
pub fn needs_more(e: &VpnError) -> (r: bool)
    ensures
        r == incomplete(*e),
{
    match e {
        VpnError::Truncated(_) => true,
        VpnError::AddrError(AddrError::IPv4Unreadable) => true,
        VpnError::AddrError(AddrError::IPv6Unreadable) => true,
        VpnError::AddrError(AddrError::PortNumberUnreadable) => true,
        VpnError::AddrError(AddrError::DomainLenUnreadable) => true,
        VpnError::AddrError(AddrError::DomainContentUnreadable) => true,
        _ => false,
    }
}

/// A method-selection message refused for another reason than too few bytes stays refused,
/// the same way, whatever follows.
pub proof fn lemma_methods_error_stable(s: Seq<u8>, more: Seq<u8>)
    requires
        spec_get_methods(s) matches Err(e) && !incomplete(e),
    ensures
        spec_get_methods(s + more) == spec_get_methods(s),
{
}

/// Credentials refused for another reason than too few bytes stay refused, the same way,
/// whatever follows.
pub proof fn lemma_credentials_error_stable(s: Seq<u8>, more: Seq<u8>)
    requires
        !(spec_read_username_password(s) is Short),
        !(spec_read_username_password(s) is Parsed),
    ensures
        spec_read_username_password(s + more) == spec_read_username_password(s),
{
    let t = s + more;
    let ul = s[1] as int;
    if s.len() >= 3 + ul {
        assert(t.subrange(2, 2 + ul) =~= s.subrange(2, 2 + ul));
        let pl = s[2 + ul] as int;
        if s.len() >= 3 + ul + pl {
            assert(t.subrange(3 + ul, 3 + ul + pl) =~= s.subrange(3 + ul, 3 + ul + pl));
        }
    }
}

/// A request refused for another reason than too few bytes stays refused, the same way,
/// whatever follows.
pub proof fn lemma_request_error_stable(s: Seq<u8>, more: Seq<u8>)
    requires
        spec_read_command(s) matches Err(e) && !incomplete(e),
    ensures
        spec_read_command(s + more) == spec_read_command(s),
{
    let t = s + more;
    if s.len() >= 4 && s[0] == SOCKS5_VERSION {
        let body = s.subrange(4, s.len() as int);
        assert(t.subrange(4, t.len() as int) =~= body + more);
        if command_of_code(s[1]) matches Some(cmd) && !(cmd is TCPBind) && parse_address(
            s[3],
            body,
        ) is Err {
            lemma_address_error_stable(s[3], body, more);
        }
    }
}

/// The method the server picks: no authentication whenever it demands none; when it demands
/// a password, the password method exactly when the client offers it, wherever it stands
/// among the offered methods, and nothing otherwise.
pub proof fn lemma_chosen_method(methods: Seq<u8>, auth_type: AuthType, i: int)
    ensures
        auth_type is NoAuth ==> chosen_method(methods, auth_type) == Some(SOCKS5_AUTH_METHOD_NONE),
        auth_type is Auth ==> (chosen_method(methods, auth_type) is Some <==> methods.contains(
            SOCKS5_AUTH_METHOD_PASSWORD,
        )),
        auth_type is Auth && 0 <= i < methods.len() && methods[i] == SOCKS5_AUTH_METHOD_PASSWORD
            ==> chosen_method(methods, auth_type) == Some(SOCKS5_AUTH_METHOD_PASSWORD),
        chosen_method(methods, auth_type) matches Some(m) ==> m == auth_method_code(auth_type),
{
    if auth_type is Auth && 0 <= i < methods.len() && methods[i] == SOCKS5_AUTH_METHOD_PASSWORD {
        assert(methods.contains(SOCKS5_AUTH_METHOD_PASSWORD));
    }
}

} // verus!
