//! Validated identifiers for clients, connections, ports and channels, plus
//! chain identifiers. An identifier is a string of a bounded length drawn from
//! a fixed character set; once constructed it is immutable and compared by
//! value. A malformed identifier is rejected at construction, so none ever
//! reaches a state machine.

use vstd::prelude::*;

verus! {

/// Error returned when an identifier fails validation.
#[derive(Clone, Copy, Debug, PartialEq, Eq, Structural)]
pub enum IdentifierError {
    /// Length outside the permitted range for this identifier kind.
    InvalidLength,
    /// A character outside the permitted set.
    InvalidCharacter,
}

/// The identifier error an invalid candidate reports: length problems are
/// reported before character problems.
pub open spec fn spec_identifier_error(s: Seq<char>, min: nat, max: nat) -> IdentifierError {
    if !(min <= s.len() && s.len() <= max) {
        IdentifierError::InvalidLength
    } else {
        IdentifierError::InvalidCharacter
    }
}

/// The characters an identifier may contain: ASCII letters and digits and a
/// small set of punctuation, never a path separator.
pub open spec fn valid_id_char(c: char) -> bool {
    ('a' as u32 <= c as u32 && c as u32 <= 'z' as u32)
        || ('A' as u32 <= c as u32 && c as u32 <= 'Z' as u32)
        || ('0' as u32 <= c as u32 && c as u32 <= '9' as u32)
        || c == '.' || c == '_' || c == '+' || c == '-'
        || c == '#' || c == '[' || c == ']' || c == '<' || c == '>'
}

/// A well-formed identifier of a kind whose lengths lie in `min ..= max`.
pub open spec fn valid_identifier(s: Seq<char>, min: nat, max: nat) -> bool {
    min <= s.len() && s.len() <= max
        && (forall|i: int| 0 <= i < s.len() ==> valid_id_char(#[trigger] s[i]))
}

/// Checks a candidate identifier against the length range and character set.
pub fn validate_identifier(s: &str, min: usize, max: usize) -> (r: Result<
    (),
    IdentifierError,
>)
    requires
        min >= 1,
    ensures
        r is Ok <==> valid_identifier(s@, min as nat, max as nat),
        r matches Err(e) ==> !valid_identifier(s@, min as nat, max as nat) && e
            == spec_identifier_error(s@, min as nat, max as nat),
{
    let len = s.unicode_len();
    if len < min || len > max {
        return Err(IdentifierError::InvalidLength);
    }
    let mut i: usize = 0;
    while i < len
        invariant
            len == s@.len(),
            min <= len <= max,
            i <= len,
            forall|j: int| 0 <= j < i ==> valid_id_char(#[trigger] s@[j]),
        decreases len - i,
    {
        let c = s.get_char(i);
        let ok = (c >= 'a' && c <= 'z') || (c >= 'A' && c <= 'Z') || (c >= '0' && c <= '9')
            || c == '.' || c == '_' || c == '+' || c == '-' || c == '#' || c == '[' || c == ']'
            || c == '<' || c == '>';
        if !ok {
            return Err(IdentifierError::InvalidCharacter);
        }
        i += 1;
    }
    Ok(())
}

/// The decimal digit character for `d < 10`.
pub open spec fn dec_digit_char(d: nat) -> char {
    if d == 0 { '0' }
    else if d == 1 { '1' }
    else if d == 2 { '2' }
    else if d == 3 { '3' }
    else if d == 4 { '4' }
    else if d == 5 { '5' }
    else if d == 6 { '6' }
    else if d == 7 { '7' }
    else if d == 8 { '8' }
    else { '9' }
}

/// The decimal representation of `n`, most significant digit first.
pub open spec fn dec_str(n: nat) -> Seq<char>
    decreases n,
{
    if n < 10 {
        seq![dec_digit_char(n)]
    } else {
        dec_str(n / 10).push(dec_digit_char(n % 10))
    }
}

/// Renders `n` in decimal.
pub fn u64_to_dec(n: u64) -> (r: String)
    ensures
        r@ == dec_str(n as nat),
    decreases n,
{
    let d = n % 10;
    let digit: &str = if d == 0 { "0" } else if d == 1 { "1" } else if d == 2 { "2" } else if d
        == 3 { "3" } else if d == 4 { "4" } else if d == 5 { "5" } else if d == 6 { "6" } else if d
        == 7 { "7" } else if d == 8 { "8" } else { "9" };
    proof {
        reveal_strlit("0");
        reveal_strlit("1");
        reveal_strlit("2");
        reveal_strlit("3");
        reveal_strlit("4");
        reveal_strlit("5");
        reveal_strlit("6");
        reveal_strlit("7");
        reveal_strlit("8");
        reveal_strlit("9");
        assert(digit@ =~= seq![dec_digit_char((n % 10) as nat)]);
    }
    if n < 10 {
        let r = String::from_str(digit);
        proof {
            assert(r@ =~= dec_str(n as nat));
        }
        r
    } else {
        let prefix = u64_to_dec(n / 10);
        let r = prefix.concat(digit);
        proof {
            assert(r@ =~= dec_str(n as nat));
        }
        r
    }
}

/// A client identifier: `{client-type}-{counter}` or any validated string of
/// 9 to 64 identifier characters.
#[derive(Clone, Debug, PartialEq, Eq)]
pub struct ClientId {
    pub id: String,
}

/// A connection identifier: 10 to 64 identifier characters.
#[derive(Clone, Debug, PartialEq, Eq)]
pub struct ConnectionId {
    pub id: String,
}

/// A port identifier: 2 to 128 identifier characters.
#[derive(Clone, Debug, PartialEq, Eq)]
pub struct PortId {
    pub id: String,
}

/// A channel identifier: 8 to 64 identifier characters.
#[derive(Clone, Debug, PartialEq, Eq)]
pub struct ChannelId {
    pub id: String,
}

impl View for ClientId {
    type V = Seq<char>;

    open spec fn view(&self) -> Seq<char> {
        self.id@
    }
}

impl View for ConnectionId {
    type V = Seq<char>;

    open spec fn view(&self) -> Seq<char> {
        self.id@
    }
}

impl View for PortId {
    type V = Seq<char>;

    open spec fn view(&self) -> Seq<char> {
        self.id@
    }
}

impl View for ChannelId {
    type V = Seq<char>;

    open spec fn view(&self) -> Seq<char> {
        self.id@
    }
}

impl ClientId {
    pub open spec fn spec_valid(s: Seq<char>) -> bool {
        valid_identifier(s, 9, 64)
    }

    /// Parses a client identifier from a string, validating it.
    pub fn from_str(s: &str) -> (r: Result<ClientId, IdentifierError>)
        ensures
            r is Ok <==> Self::spec_valid(s@),
            r matches Ok(id) ==> id@ == s@,
            r matches Err(e) ==> e == spec_identifier_error(s@, 9, 64),
    {
        match validate_identifier(s, 9, 64) {
            Ok(()) => Ok(ClientId { id: s.to_owned() }),
            Err(e) => Err(e),
        }
    }

    /// Builds `{client_type}-{counter}`; fails exactly when the joined string
    /// is no valid client identifier.
    pub fn new(client_type: &str, counter: u64) -> (r: Result<ClientId, IdentifierError>)
        ensures
            r is Ok <==> Self::spec_valid(s_new_client_id(client_type@, counter as nat)),
            r matches Ok(id) ==> id@ == s_new_client_id(client_type@, counter as nat),
            r matches Err(e) ==> e == spec_identifier_error(
                s_new_client_id(client_type@, counter as nat),
                9,
                64,
            ),
    {
        proof {
            reveal_strlit("-");
        }
        let joined = client_type.to_owned().concat("-").concat(u64_to_dec(counter).as_str());
        proof {
            assert(joined@ =~= s_new_client_id(client_type@, counter as nat));
        }
        match validate_identifier(joined.as_str(), 9, 64) {
            Ok(()) => Ok(ClientId { id: joined }),
            Err(e) => Err(e),
        }
    }

    pub fn as_str(&self) -> (r: &str)
        ensures
            r@ == self@,
    {
        self.id.as_str()
    }

    /// A copy of this identifier, equal in value.
    pub fn clone_id(&self) -> (r: ClientId)
        ensures
            r == *self,
    {
        ClientId { id: self.id.clone() }
    }

    /// Value equality of two client identifiers.
    pub fn eq_id(&self, other: &ClientId) -> (r: bool)
        ensures
            r == (self@ == other@),
    {
        self.id == other.id
    }
}

impl Default for ClientId {
    /// The first client of the mock client type.
    fn default() -> (r: ClientId)
        ensures
            r@ == "9999-mock-0"@,
    {
        ClientId { id: "9999-mock-0".to_owned() }
    }
}

/// The string `{client_type}-{counter}`, the canonical form of a generated
/// client identifier.
pub open spec fn s_new_client_id(client_type: Seq<char>, counter: nat) -> Seq<char> {
    client_type + seq!['-'] + dec_str(counter)
}

impl ConnectionId {
    pub open spec fn spec_valid(s: Seq<char>) -> bool {
        valid_identifier(s, 10, 64)
    }

    pub fn from_str(s: &str) -> (r: Result<ConnectionId, IdentifierError>)
        ensures
            r is Ok <==> Self::spec_valid(s@),
            r matches Ok(id) ==> id@ == s@,
            r matches Err(e) ==> e == spec_identifier_error(s@, 10, 64),
    {
        match validate_identifier(s, 10, 64) {
            Ok(()) => Ok(ConnectionId { id: s.to_owned() }),
            Err(e) => Err(e),
        }
    }

    pub fn as_str(&self) -> (r: &str)
        ensures
            r@ == self@,
    {
        self.id.as_str()
    }
}

impl PortId {
    pub open spec fn spec_valid(s: Seq<char>) -> bool {
        valid_identifier(s, 2, 128)
    }

    pub fn from_str(s: &str) -> (r: Result<PortId, IdentifierError>)
        ensures
            r is Ok <==> Self::spec_valid(s@),
            r matches Ok(id) ==> id@ == s@,
            r matches Err(e) ==> e == spec_identifier_error(s@, 2, 128),
    {
        match validate_identifier(s, 2, 128) {
            Ok(()) => Ok(PortId { id: s.to_owned() }),
            Err(e) => Err(e),
        }
    }

    pub fn as_str(&self) -> (r: &str)
        ensures
            r@ == self@,
    {
        self.id.as_str()
    }

    /// Value equality of two port identifiers.
    pub fn eq_id(&self, other: &PortId) -> (r: bool)
        ensures
            r == (self@ == other@),
    {
        self.id == other.id
    }
}

impl Default for PortId {
    /// The conventional default port.
    fn default() -> (r: PortId)
        ensures
            r@ == "defaultPort"@,
    {
        PortId { id: "defaultPort".to_owned() }
    }
}

impl ChannelId {
    pub open spec fn spec_valid(s: Seq<char>) -> bool {
        valid_identifier(s, 8, 64)
    }

    pub fn from_str(s: &str) -> (r: Result<ChannelId, IdentifierError>)
        ensures
            r is Ok <==> Self::spec_valid(s@),
            r matches Ok(id) ==> id@ == s@,
            r matches Err(e) ==> e == spec_identifier_error(s@, 8, 64),
    {
        match validate_identifier(s, 8, 64) {
            Ok(()) => Ok(ChannelId { id: s.to_owned() }),
            Err(e) => Err(e),
        }
    }

    pub fn as_str(&self) -> (r: &str)
        ensures
            r@ == self@,
    {
        self.id.as_str()
    }

    /// Value equality of two channel identifiers.
    pub fn eq_id(&self, other: &ChannelId) -> (r: bool)
        ensures
            r == (self@ == other@),
    {
        self.id == other.id
    }
}

impl Default for ChannelId {
    /// The conventional first channel, `channel-0`.
    fn default() -> (r: ChannelId)
        ensures
            r@ == "channel-0"@,
    {
        ChannelId { id: "channel-0".to_owned() }
    }
}

/// A chain identifier: a human-readable name together with the revision
/// number the chain is currently on. Its canonical string form is
/// `{name}-{revision_number}`.
#[derive(Clone, Debug, PartialEq, Eq)]
pub struct ChainId {
    pub name: String,
    pub revision_number: u64,
}

impl ChainId {
    pub fn new(name: String, revision_number: u64) -> (r: ChainId)
        ensures
            r.name@ == name@,
            r.revision_number == revision_number,
    {
        ChainId { name, revision_number }
    }

    pub fn revision_number(&self) -> (r: u64)
        ensures
            r == self.revision_number,
    {
        self.revision_number
    }

    /// The canonical `{name}-{revision_number}` form.
    pub fn as_string(&self) -> (r: String)
        ensures
            r@ == self.name@ + seq!['-'] + dec_str(self.revision_number as nat),
    {
        proof {
            reveal_strlit("-");
        }
        let r = self.name.clone().concat("-").concat(u64_to_dec(self.revision_number).as_str());
        proof {
            assert(r@ =~= self.name@ + seq!['-'] + dec_str(self.revision_number as nat));
        }
        r
    }

    /// Value equality of two chain identifiers.
    pub fn eq_id(&self, other: &ChainId) -> (r: bool)
        ensures
            r == (self.name@ == other.name@ && self.revision_number == other.revision_number),
    {
        self.name == other.name && self.revision_number == other.revision_number
    }
}

} // verus!
