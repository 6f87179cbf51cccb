//! The enumerated-field codec: closed sets of string-backed values and
//! ordered lists of them that serialize to a single delimited string.

use vstd::prelude::*;

verus! {

/// Compares two string slices by their character sequences.
pub(crate) fn str_eq(a: &str, b: &str) -> (r: bool)
    ensures
        r == (a@ == b@),
{
    let x: String = a.to_owned();
    let y: String = b.to_owned();
    x == y
}

/// A closed set of string-backed values. Each value owns a fixed tag;
/// parsing a tag is exact (case-sensitive, no normalization) and is the
/// inverse of serialization. `String` itself implements the trait as the
/// free-form instance in which every string is its own tag.
pub trait Tagged: Sized + View {
    /// The tag under which a value serializes.
    spec fn tag(v: Self::V) -> Seq<char>;

    /// The field-type name used in parse errors.
    spec fn kind_name() -> Seq<char>;

    /// What parsing a single tag yields.
    spec fn spec_parse_tag(s: Seq<char>) -> Option<Self::V>;

    /// Parsing is left-inverse to serialization.
    proof fn lemma_tag_round_trip(v: Self::V)
        ensures
            Self::spec_parse_tag(Self::tag(v)) == Some(v),
    ;

    /// A successful parse returns exactly the value whose tag was given;
    /// a failed parse means no value carries that tag.
    proof fn lemma_parse_tag_exact(s: Seq<char>)
        ensures
            match Self::spec_parse_tag(s) {
                Some(v) => Self::tag(v) == s,
                None => forall|v: Self::V| #[trigger] Self::tag(v) != s,
            },
    ;

    /// Serializes one value to its tag.
    fn serialize_tag(&self) -> (r: String)
        ensures
            r@ == Self::tag(self@),
    ;

    /// Parses one tag, exactly.
    fn parse_tag(s: &str) -> (r: Option<Self>)
        ensures
            match r {
                Some(v) => Self::spec_parse_tag(s@) == Some(v@),
                None => Self::spec_parse_tag(s@) is None,
            },
    ;

    /// The field-type name, for error messages.
    fn kind_name_str() -> (r: String)
        ensures
            r@ == Self::kind_name(),
    ;

    /// An equal copy of one value.
    fn clone_value(&self) -> (r: Self)
        ensures
            r@ == self@,
    ;
}

/// An OAuth 2.0 grant type a client is allowed to use.
#[derive(Clone, Copy, Debug, PartialEq, Eq, Structural)]
pub enum GrantType {
    AuthorizationCode,
    Implicit,
    RefreshToken,
    ClientCredentials,
}

impl View for GrantType {
    type V = GrantType;

    open spec fn view(&self) -> GrantType {
        *self
    }
}

impl Tagged for GrantType {
    open spec fn tag(v: GrantType) -> Seq<char> {
        match v {
            GrantType::AuthorizationCode => "authorization_code"@,
            GrantType::Implicit => "implicit"@,
            GrantType::RefreshToken => "refresh_token"@,
            GrantType::ClientCredentials => "client_credentials"@,
        }
    }

    open spec fn kind_name() -> Seq<char> {
        "grant_type"@
    }

    open spec fn spec_parse_tag(s: Seq<char>) -> Option<GrantType> {
        if s == "authorization_code"@ {
            Some(GrantType::AuthorizationCode)
        } else if s == "implicit"@ {
            Some(GrantType::Implicit)
        } else if s == "refresh_token"@ {
            Some(GrantType::RefreshToken)
        } else if s == "client_credentials"@ {
            Some(GrantType::ClientCredentials)
        } else {
            None
        }
    }

    proof fn lemma_tag_round_trip(v: GrantType) {
        reveal_strlit("authorization_code");
        reveal_strlit("implicit");
        reveal_strlit("refresh_token");
        reveal_strlit("client_credentials");
        assert("authorization_code"@.len() == 18);
        assert("implicit"@.len() == 8);
        assert("refresh_token"@.len() == 13);
        assert("client_credentials"@.len() == 18);
        assert("authorization_code"@[0] == 'a' && "client_credentials"@[0] == 'c');
        match v {
            GrantType::AuthorizationCode => assert(Self::spec_parse_tag(Self::tag(v)) == Some(v)),
            GrantType::Implicit => assert(Self::spec_parse_tag(Self::tag(v)) == Some(v)),
            GrantType::RefreshToken => assert(Self::spec_parse_tag(Self::tag(v)) == Some(v)),
            GrantType::ClientCredentials => assert(Self::spec_parse_tag(Self::tag(v)) == Some(v)),
        }
    }

    proof fn lemma_parse_tag_exact(s: Seq<char>) {
    }

    fn serialize_tag(&self) -> (r: String) {
        match self {
            GrantType::AuthorizationCode => String::from_str("authorization_code"),
            GrantType::Implicit => String::from_str("implicit"),
            GrantType::RefreshToken => String::from_str("refresh_token"),
            GrantType::ClientCredentials => String::from_str("client_credentials"),
        }
    }

    fn parse_tag(s: &str) -> (r: Option<GrantType>) {
        if str_eq(s, "authorization_code") {
            Some(GrantType::AuthorizationCode)
        } else if str_eq(s, "implicit") {
            Some(GrantType::Implicit)
        } else if str_eq(s, "refresh_token") {
            Some(GrantType::RefreshToken)
        } else if str_eq(s, "client_credentials") {
            Some(GrantType::ClientCredentials)
        } else {
            None
        }
    }

    fn kind_name_str() -> (r: String) {
        String::from_str("grant_type")
    }

    fn clone_value(&self) -> (r: Self) {
        *self
    }
}

/// An OAuth 2.0 response type that determines the authorization flow.
#[derive(Clone, Copy, Debug, PartialEq, Eq, Structural)]
pub enum ResponseType {
    Code,
    Token,
    IdToken,
}

impl View for ResponseType {
    type V = ResponseType;

    open spec fn view(&self) -> ResponseType {
        *self
    }
}

impl Tagged for ResponseType {
    open spec fn tag(v: ResponseType) -> Seq<char> {
        match v {
            ResponseType::Code => "code"@,
            ResponseType::Token => "token"@,
            ResponseType::IdToken => "id_token"@,
        }
    }

    open spec fn kind_name() -> Seq<char> {
        "response_type"@
    }

    open spec fn spec_parse_tag(s: Seq<char>) -> Option<ResponseType> {
        if s == "code"@ {
            Some(ResponseType::Code)
        } else if s == "token"@ {
            Some(ResponseType::Token)
        } else if s == "id_token"@ {
            Some(ResponseType::IdToken)
        } else {
            None
        }
    }

    proof fn lemma_tag_round_trip(v: ResponseType) {
        reveal_strlit("code");
        reveal_strlit("token");
        reveal_strlit("id_token");
        assert("code"@.len() == 4);
        assert("token"@.len() == 5);
        assert("id_token"@.len() == 8);
        match v {
            ResponseType::Code => assert(Self::spec_parse_tag(Self::tag(v)) == Some(v)),
            ResponseType::Token => assert(Self::spec_parse_tag(Self::tag(v)) == Some(v)),
            ResponseType::IdToken => assert(Self::spec_parse_tag(Self::tag(v)) == Some(v)),
        }
    }

    proof fn lemma_parse_tag_exact(s: Seq<char>) {
    }

    fn serialize_tag(&self) -> (r: String) {
        match self {
            ResponseType::Code => String::from_str("code"),
            ResponseType::Token => String::from_str("token"),
            ResponseType::IdToken => String::from_str("id_token"),
        }
    }

    fn parse_tag(s: &str) -> (r: Option<ResponseType>) {
        if str_eq(s, "code") {
            Some(ResponseType::Code)
        } else if str_eq(s, "token") {
            Some(ResponseType::Token)
        } else if str_eq(s, "id_token") {
            Some(ResponseType::IdToken)
        } else {
            None
        }
    }

    fn kind_name_str() -> (r: String) {
        String::from_str("response_type")
    }

    fn clone_value(&self) -> (r: Self) {
        *self
    }
}

/// An OpenID Connect scope value a client may request.
#[derive(Clone, Copy, Debug, PartialEq, Eq, Structural)]
pub enum ScopeValue {
    Openid,
    Profile,
    Email,
    Address,
    Phone,
}

impl View for ScopeValue {
    type V = ScopeValue;

    open spec fn view(&self) -> ScopeValue {
        *self
    }
}

impl Tagged for ScopeValue {
    open spec fn tag(v: ScopeValue) -> Seq<char> {
        match v {
            ScopeValue::Openid => "openid"@,
            ScopeValue::Profile => "profile"@,
            ScopeValue::Email => "email"@,
            ScopeValue::Address => "address"@,
            ScopeValue::Phone => "phone"@,
        }
    }

    open spec fn kind_name() -> Seq<char> {
        "scope"@
    }

    open spec fn spec_parse_tag(s: Seq<char>) -> Option<ScopeValue> {
        if s == "openid"@ {
            Some(ScopeValue::Openid)
        } else if s == "profile"@ {
            Some(ScopeValue::Profile)
        } else if s == "email"@ {
            Some(ScopeValue::Email)
        } else if s == "address"@ {
            Some(ScopeValue::Address)
        } else if s == "phone"@ {
            Some(ScopeValue::Phone)
        } else {
            None
        }
    }

    proof fn lemma_tag_round_trip(v: ScopeValue) {
        reveal_strlit("openid");
        reveal_strlit("profile");
        reveal_strlit("email");
        reveal_strlit("address");
        reveal_strlit("phone");
        assert("openid"@.len() == 6);
        assert("profile"@.len() == 7);
        assert("email"@.len() == 5);
        assert("address"@.len() == 7);
        assert("phone"@.len() == 5);
        assert("profile"@[0] == 'p' && "address"@[0] == 'a');
        assert("email"@[0] == 'e' && "phone"@[0] == 'p');
        match v {
            ScopeValue::Openid => assert(Self::spec_parse_tag(Self::tag(v)) == Some(v)),
            ScopeValue::Profile => assert(Self::spec_parse_tag(Self::tag(v)) == Some(v)),
            ScopeValue::Email => assert(Self::spec_parse_tag(Self::tag(v)) == Some(v)),
            ScopeValue::Address => assert(Self::spec_parse_tag(Self::tag(v)) == Some(v)),
            ScopeValue::Phone => assert(Self::spec_parse_tag(Self::tag(v)) == Some(v)),
        }
    }

    proof fn lemma_parse_tag_exact(s: Seq<char>) {
    }

    fn serialize_tag(&self) -> (r: String) {
        match self {
            ScopeValue::Openid => String::from_str("openid"),
            ScopeValue::Profile => String::from_str("profile"),
            ScopeValue::Email => String::from_str("email"),
            ScopeValue::Address => String::from_str("address"),
            ScopeValue::Phone => String::from_str("phone"),
        }
    }

    fn parse_tag(s: &str) -> (r: Option<ScopeValue>) {
        if str_eq(s, "openid") {
            Some(ScopeValue::Openid)
        } else if str_eq(s, "profile") {
            Some(ScopeValue::Profile)
        } else if str_eq(s, "email") {
            Some(ScopeValue::Email)
        } else if str_eq(s, "address") {
            Some(ScopeValue::Address)
        } else if str_eq(s, "phone") {
            Some(ScopeValue::Phone)
        } else {
            None
        }
    }

    fn kind_name_str() -> (r: String) {
        String::from_str("scope")
    }

    fn clone_value(&self) -> (r: Self) {
        *self
    }
}

/// The free-form instance: every string is a valid tag for itself.
/// Redirect URIs use this instance.
impl Tagged for String {
    open spec fn tag(v: Seq<char>) -> Seq<char> {
        v
    }

    open spec fn kind_name() -> Seq<char> {
        "value"@
    }

    open spec fn spec_parse_tag(s: Seq<char>) -> Option<Seq<char>> {
        Some(s)
    }

    proof fn lemma_tag_round_trip(v: Seq<char>) {
    }

    proof fn lemma_parse_tag_exact(s: Seq<char>) {
    }

    fn serialize_tag(&self) -> (r: String) {
        self.clone()
    }

    fn parse_tag(s: &str) -> (r: Option<String>) {
        Some(s.to_owned())
    }

    fn kind_name_str() -> (r: String) {
        String::from_str("value")
    }

    fn clone_value(&self) -> (r: Self) {
        self.clone()
    }
}

/// The views of the elements of a sequence.
pub open spec fn views_of<T: View>(s: Seq<T>) -> Seq<T::V> {
    Seq::new(s.len(), |i: int| s[i]@)
}

/// The pieces of `s` delimited by `d`. The empty string is one empty piece;
/// a trailing delimiter ends with an empty piece.
pub open spec fn spec_split(s: Seq<char>, d: char) -> Seq<Seq<char>>
    decreases s.len(),
{
    if s.len() == 0 {
        seq![Seq::<char>::empty()]
    } else {
        let rest = spec_split(s.drop_last(), d);
        if s.last() == d {
            rest.push(Seq::<char>::empty())
        } else {
            rest.update(rest.len() - 1, rest.last().push(s.last()))
        }
    }
}

/// Splitting yields at least one piece.
pub proof fn lemma_split_nonempty(s: Seq<char>, d: char)
    ensures
        spec_split(s, d).len() >= 1,
    decreases s.len(),
{
    if s.len() > 0 {
        lemma_split_nonempty(s.drop_last(), d);
    }
}

/// The single string joining `pieces` with `d` between them.
pub open spec fn spec_join(pieces: Seq<Seq<char>>, d: char) -> Seq<char>
    decreases pieces.len(),
{
    if pieces.len() == 0 {
        Seq::<char>::empty()
    } else if pieces.len() == 1 {
        pieces[0]
    } else {
        spec_join(pieces.drop_last(), d) + seq![d] + pieces.last()
    }
}

/// A delimiter-free string splits into exactly itself.
pub proof fn lemma_split_no_delim(t: Seq<char>, d: char)
    requires
        !t.contains(d),
    ensures
        spec_split(t, d) =~~= seq![t],
    decreases t.len(),
{
    if t.len() == 0 {
        assert(spec_split(t, d) =~~= seq![t]);
    } else {
        assert(t.last() != d) by {
            assert(t[t.len() - 1] == t.last());
        }
        assert(!t.drop_last().contains(d)) by {
            assert(forall|i: int|
                0 <= i < t.drop_last().len() ==> t.drop_last()[i] == t[i] && t[i] != d);
        }
        lemma_split_no_delim(t.drop_last(), d);
        assert(t.drop_last().push(t.last()) =~= t);
        assert(spec_split(t, d) =~~= seq![t]);
    }
}

/// Appending a delimiter and a delimiter-free tail adds one piece to a split.
pub proof fn lemma_split_append(a: Seq<char>, t: Seq<char>, d: char)
    requires
        !t.contains(d),
    ensures
        spec_split(a + seq![d] + t, d) =~~= spec_split(a, d).push(t),
    decreases t.len(),
{
    lemma_split_nonempty(a, d);
    if t.len() == 0 {
        let s = a + seq![d] + t;
        assert(s =~= a + seq![d]);
        assert(s.len() == a.len() + 1);
        assert(s.last() == d);
        assert(s.drop_last() =~= a);
        assert(spec_split(s, d) =~~= spec_split(a, d).push(t));
    } else {
        let s = a + seq![d] + t;
        assert(s.last() == t.last());
        assert(t.last() != d) by {
            assert(t[t.len() - 1] == t.last());
        }
        assert(!t.drop_last().contains(d)) by {
            assert(forall|i: int|
                0 <= i < t.drop_last().len() ==> t.drop_last()[i] == t[i] && t[i] != d);
        }
        assert(s.drop_last() =~= a + seq![d] + t.drop_last());
        lemma_split_append(a, t.drop_last(), d);
        let rest = spec_split(s.drop_last(), d);
        assert(rest =~~= spec_split(a, d).push(t.drop_last()));
        assert(rest.len() == spec_split(a, d).len() + 1);
        assert(rest.last() == t.drop_last());
        assert(t.drop_last().push(t.last()) =~= t);
        assert(spec_split(s, d) =~~= spec_split(a, d).push(t));
    }
}

/// Joining delimiter-free pieces and splitting the result gives the pieces
/// back.
pub proof fn lemma_split_join(pieces: Seq<Seq<char>>, d: char)
    requires
        pieces.len() >= 1,
        forall|i: int| 0 <= i < pieces.len() ==> !(#[trigger] pieces[i]).contains(d),
    ensures
        spec_split(spec_join(pieces, d), d) =~~= pieces,
    decreases pieces.len(),
{
    if pieces.len() == 1 {
        lemma_split_no_delim(pieces[0], d);
        assert(spec_split(spec_join(pieces, d), d) =~~= pieces);
    } else {
        let front = pieces.drop_last();
        assert(forall|i: int| 0 <= i < front.len() ==> front[i] == pieces[i]);
        lemma_split_join(front, d);
        lemma_split_append(spec_join(front, d), pieces.last(), d);
        assert(front.push(pieces.last()) =~= pieces);
    }
}

/// The tags of the values in `l`.
pub open spec fn spec_tags<E: Tagged>(l: Seq<E::V>) -> Seq<Seq<char>> {
    l.map_values(|v: E::V| E::tag(v))
}

/// What serializing a field list yields: its tags joined by the delimiter.
/// The empty list yields the empty string.
pub open spec fn spec_serialize_list<E: Tagged>(l: Seq<E::V>, d: char) -> Seq<char> {
    spec_join(spec_tags::<E>(l), d)
}

/// What parsing a sequence of pieces yields: every piece parsed in order,
/// or else the first unparseable piece, with nothing of the list kept.
pub open spec fn spec_parse_pieces<E: Tagged>(pieces: Seq<Seq<char>>) -> Result<
    Seq<E::V>,
    Seq<char>,
>
    decreases pieces.len(),
{
    if pieces.len() == 0 {
        Ok(Seq::<E::V>::empty())
    } else {
        match E::spec_parse_tag(pieces[0]) {
            None => Err(pieces[0]),
            Some(v) => match spec_parse_pieces::<E>(pieces.drop_first()) {
                Ok(rest) => Ok(seq![v] + rest),
                Err(bad) => Err(bad),
            },
        }
    }
}

/// What parsing a delimited string yields: the empty string is the empty
/// list; otherwise every delimited piece must parse.
pub open spec fn spec_parse_list<E: Tagged>(s: Seq<char>, d: char) -> Result<
    Seq<E::V>,
    Seq<char>,
> {
    if s.len() == 0 {
        Ok(Seq::<E::V>::empty())
    } else {
        spec_parse_pieces::<E>(spec_split(s, d))
    }
}

/// Parsing distributes over concatenation of piece sequences.
pub proof fn lemma_parse_pieces_concat<E: Tagged>(a: Seq<Seq<char>>, b: Seq<Seq<char>>)
    ensures
        spec_parse_pieces::<E>(a + b) == (match spec_parse_pieces::<E>(a) {
            Err(bad) => Err::<Seq<E::V>, Seq<char>>(bad),
            Ok(vs) => match spec_parse_pieces::<E>(b) {
                Err(bad) => Err::<Seq<E::V>, Seq<char>>(bad),
                Ok(ws) => Ok::<Seq<E::V>, Seq<char>>(vs + ws),
            },
        }),
    decreases a.len(),
{
    if a.len() == 0 {
        assert(a + b =~= b);
        match spec_parse_pieces::<E>(b) {
            Ok(ws) => {
                assert(Seq::<E::V>::empty() + ws =~= ws);
            },
            Err(_) => {},
        }
    } else {
        assert((a + b).len() > 0);
        assert((a + b)[0] == a[0]);
        assert((a + b).drop_first() =~= a.drop_first() + b);
        lemma_parse_pieces_concat::<E>(a.drop_first(), b);
        match E::spec_parse_tag(a[0]) {
            None => {},
            Some(v) => {
                match spec_parse_pieces::<E>(a.drop_first()) {
                    Err(_) => {},
                    Ok(vs1) => {
                        match spec_parse_pieces::<E>(b) {
                            Err(_) => {},
                            Ok(ws) => {
                                assert(seq![v] + (vs1 + ws) =~= (seq![v] + vs1) + ws);
                            },
                        }
                    },
                }
            },
        }
    }
}

/// The tags of valid values always parse back to those values.
pub proof fn lemma_parse_tags<E: Tagged>(l: Seq<E::V>)
    ensures
        spec_parse_pieces::<E>(spec_tags::<E>(l)) == Ok::<Seq<E::V>, Seq<char>>(l),
    decreases l.len(),
{
    if l.len() == 0 {
        assert(spec_tags::<E>(l).len() == 0);
        assert(Ok::<Seq<E::V>, Seq<char>>(Seq::<E::V>::empty()) == Ok::<Seq<E::V>, Seq<char>>(l))
            by {
            assert(Seq::<E::V>::empty() =~= l);
        }
    } else {
        let ts = spec_tags::<E>(l);
        assert(ts.len() == l.len());
        assert(ts[0] == E::tag(l[0]));
        E::lemma_tag_round_trip(l[0]);
        assert(ts.drop_first() =~= spec_tags::<E>(l.drop_first()));
        lemma_parse_tags::<E>(l.drop_first());
        assert(seq![l[0]] + l.drop_first() =~= l);
    }
}

/// The round-trip law: a list of valid values, serialized with a delimiter
/// that occurs in no tag and whose tags are nonempty, parses back to exactly
/// the same list, in the same order, duplicates kept.
pub proof fn lemma_field_list_round_trip<E: Tagged>(l: Seq<E::V>, d: char)
    requires
        forall|i: int|
            0 <= i < l.len() ==> (#[trigger] E::tag(l[i])).len() > 0 && !E::tag(l[i]).contains(d),
    ensures
        spec_parse_list::<E>(spec_serialize_list::<E>(l, d), d) == Ok::<Seq<E::V>, Seq<char>>(l),
{
    let ts = spec_tags::<E>(l);
    let s = spec_serialize_list::<E>(l, d);
    if l.len() == 0 {
        assert(s.len() == 0);
        assert(Seq::<E::V>::empty() =~= l);
    } else {
        assert(forall|i: int| 0 <= i < ts.len() ==> !(#[trigger] ts[i]).contains(d));
        if ts.len() == 1 {
            assert(s == ts[0]);
            assert(s.len() > 0);
        } else {
            assert(s == spec_join(ts.drop_last(), d) + seq![d] + ts.last());
            assert(s.len() > 0);
        }
        lemma_split_join(ts, d);
        assert(spec_split(s, d) =~~= ts);
        lemma_parse_tags::<E>(l);
    }
}

/// An ordered list of `Tagged` values, owned by a client record. It
/// serializes to a single delimited string; parsing validates every element
/// against the closed set and fails atomically.
#[derive(Clone, Debug, PartialEq, Eq)]
pub struct FieldList<E>(pub Vec<E>);

impl<E: View> View for FieldList<E> {
    type V = Seq<E::V>;

    open spec fn view(&self) -> Seq<E::V> {
        views_of(self.0@)
    }
}

/// A failed parse of a delimited field list: the field type and the exact
/// substring that did not parse.
#[derive(Clone, Debug, PartialEq, Eq)]
pub struct FieldParseError {
    pub field: String,
    pub value: String,
}

/// Splits `raw` at every occurrence of `delimiter`.
pub fn split_on(raw: &str, delimiter: char) -> (r: Vec<String>)
    ensures
        r.deep_view() == spec_split(raw@, delimiter),
{
    let n = raw.unicode_len();
    let mut pieces: Vec<String> = Vec::new();
    let mut start: usize = 0;
    let mut i: usize = 0;
    proof {
        assert(raw@.take(0) =~= Seq::<char>::empty());
        assert(raw@.subrange(0, 0) =~= Seq::<char>::empty());
        assert(pieces.deep_view() =~= Seq::<Seq<char>>::empty());
        assert(spec_split(raw@.take(0), delimiter) =~~= pieces.deep_view().push(
            raw@.subrange(0, 0),
        ));
    }
    while i < n
        invariant
            n == raw@.len(),
            start <= i <= n,
            spec_split(raw@.take(i as int), delimiter) =~= pieces.deep_view().push(
                raw@.subrange(start as int, i as int),
            ),
        decreases n - i,
    {
        let c = raw.get_char(i);
        proof {
            assert(raw@.take(i + 1).drop_last() =~= raw@.take(i as int));
            assert(raw@.take(i + 1).last() == raw@[i as int]);
            lemma_split_nonempty(raw@.take(i as int), delimiter);
        }
        if c == delimiter {
            let piece: String = raw.substring_char(start, i).to_owned();
            let ghost dv = pieces.deep_view();
            let ghost pv = piece@;
            pieces.push(piece);
            proof {
                assert(pieces.deep_view() =~= dv.push(pv));
                assert(raw@.subrange(i + 1, i + 1) =~= Seq::<char>::empty());
            }
            start = i + 1;
        } else {
            proof {
                assert(raw@.subrange(start as int, i as int).push(raw@[i as int]) =~= raw@
                    .subrange(start as int, i + 1));
            }
        }
        i = i + 1;
    }
    let last_piece: String = raw.substring_char(start, n).to_owned();
    let ghost dv = pieces.deep_view();
    let ghost pv = last_piece@;
    pieces.push(last_piece);
    proof {
        assert(raw@.take(n as int) =~= raw@);
        assert(pieces.deep_view() =~= dv.push(pv));
    }
    pieces
}

impl<E: Tagged> FieldList<E> {
    /// The underlying vector of values.
    pub fn into_inner(self) -> (r: Vec<E>)
        ensures
            views_of(r@) == self@,
    {
        self.0
    }

    /// Serializes the list to one string: the elements' tags joined by
    /// `delimiter`. The empty list serializes to the empty string.
    pub fn serialize(&self, delimiter: char) -> (r: String)
        ensures
            r@ == spec_serialize_list::<E>(self@, delimiter),
    {
        let delim: String = crate::trusted::char_to_string(delimiter);
        let mut out = String::new();
        let n = self.0.len();
        let mut j: usize = 0;
        while j < n
            invariant
                j <= n,
                n == self.0@.len(),
                delim@ == seq![delimiter],
                out@ == spec_join(spec_tags::<E>(self@.take(j as int)), delimiter),
            decreases n - j,
        {
            let t = (&self.0[j]).serialize_tag();
            proof {
                let prev = spec_tags::<E>(self@.take(j as int));
                let next = spec_tags::<E>(self@.take(j + 1));
                assert(next =~= prev.push(E::tag(self@[j as int])));
                if j == 0 {
                    assert(next.len() == 1);
                    assert(spec_join(next, delimiter) == next[0]);
                } else {
                    assert(next.len() >= 2);
                    assert(next.drop_last() =~= prev);
                    assert(spec_join(next, delimiter) == spec_join(prev, delimiter) + seq![
                        delimiter,
                    ] + E::tag(self@[j as int]));
                }
            }
            if j > 0 {
                out.append(delim.as_str());
            }
            out.append(t.as_str());
            proof {
                assert(out@ == spec_join(spec_tags::<E>(self@.take(j + 1)), delimiter));
            }
            j = j + 1;
        }
        proof {
            assert(self@.take(n as int) =~= self@);
        }
        out
    }

    /// Parses `raw` as a `delimiter`-separated list of tags. The empty
    /// string parses to the empty list. Any substring that is not a valid
    /// tag fails the whole parse — no partial list is returned — and the
    /// error names the field type and that substring.
    pub fn parse(raw: &str, delimiter: char) -> (r: Result<FieldList<E>, FieldParseError>)
        ensures
            match r {
                Ok(l) => spec_parse_list::<E>(raw@, delimiter) == Ok::<Seq<E::V>, Seq<char>>(l@),
                Err(e) => spec_parse_list::<E>(raw@, delimiter) == Err::<Seq<E::V>, Seq<char>>(
                    e.value@,
                ) && e.field@ == E::kind_name(),
            },
    {
        if raw.unicode_len() == 0 {
            let empty_list: FieldList<E> = FieldList(Vec::new());
            proof {
                assert(empty_list@ =~= Seq::<E::V>::empty());
            }
            return Ok(empty_list);
        }
        let pieces = split_on(raw, delimiter);
        let ghost ps = pieces.deep_view();
        let mut items: Vec<E> = Vec::new();
        let mut j: usize = 0;
        proof {
            assert(ps.take(0) =~= Seq::<Seq<char>>::empty());
            assert(views_of(items@) =~= Seq::<E::V>::empty());
        }
        while j < pieces.len()
            invariant
                j <= pieces.len(),
                ps == pieces.deep_view(),
                ps == spec_split(raw@, delimiter),
                raw@.len() > 0,
                spec_parse_pieces::<E>(ps.take(j as int)) == Ok::<Seq<E::V>, Seq<char>>(
                    views_of(items@),
                ),
            decreases pieces.len() - j,
        {
            let piece: &String = &pieces[j];
            proof {
                assert(piece@ == ps[j as int]);
            }
            match E::parse_tag(piece.as_str()) {
                Some(v) => {
                    proof {
                        lemma_parse_pieces_concat::<E>(ps.take(j as int), seq![ps[j as int]]);
                        assert(ps.take(j + 1) =~= ps.take(j as int) + seq![ps[j as int]]);
                        assert(spec_parse_pieces::<E>(Seq::<Seq<char>>::empty())
                            == Ok::<Seq<E::V>, Seq<char>>(Seq::<E::V>::empty()));
                        assert(seq![ps[j as int]].drop_first() =~= Seq::<Seq<char>>::empty());
                        assert(spec_parse_pieces::<E>(seq![ps[j as int]])
                            == Ok::<Seq<E::V>, Seq<char>>(seq![v@])) by {
                            assert(seq![v@] + Seq::<E::V>::empty() =~= seq![v@]);
                        }
                        assert(views_of(items@.push(v)) =~= views_of(items@) + seq![v@]);
                    }
                    items.push(v);
                },
                None => {
                    proof {
                        lemma_parse_pieces_concat::<E>(ps.take(j as int), ps.skip(j as int));
                        assert(ps =~= ps.take(j as int) + ps.skip(j as int));
                        assert(ps.skip(j as int).len() > 0);
                        assert(ps.skip(j as int)[0] == ps[j as int]);
                    }
                    return Err(
                        FieldParseError { field: E::kind_name_str(), value: piece.clone() },
                    );
                },
            }
            j = j + 1;
        }
        proof {
            assert(ps.take(pieces.len() as int) =~= ps);
        }
        Ok(FieldList(items))
    }
}

impl<E: Tagged> FieldList<E> {
    /// An equal copy of the list.
    pub fn duplicate(&self) -> (r: FieldList<E>)
        ensures
            r@ == self@,
    {
        let mut out: Vec<E> = Vec::new();
        let n = self.0.len();
        let mut j: usize = 0;
        while j < n
            invariant
                j <= n,
                n == self.0@.len(),
                out@.len() == j,
                forall|k: int| 0 <= k < j ==> (#[trigger] out@[k])@ == self.0@[k]@,
            decreases n - j,
        {
            let v = (&self.0[j]).clone_value();
            out.push(v);
            j = j + 1;
        }
        let r = FieldList(out);
        proof {
            assert(r@ =~= self@);
        }
        r
    }
}

/// Parses each element of `values` as one tag of `E`; fails atomically on
/// the first element that is not a valid tag, naming it and the field type.
pub fn parse_values<E: Tagged>(values: &Vec<String>) -> (r: Result<FieldList<E>, FieldParseError>)
    ensures
        match r {
            Ok(l) => spec_parse_pieces::<E>(values.deep_view()) == Ok::<Seq<E::V>, Seq<char>>(l@),
            Err(e) => spec_parse_pieces::<E>(values.deep_view()) == Err::<Seq<E::V>, Seq<char>>(
                e.value@,
            ) && e.field@ == E::kind_name(),
        },
{
    let ghost ps = values.deep_view();
    let mut items: Vec<E> = Vec::new();
    let mut j: usize = 0;
    proof {
        assert(ps.take(0) =~= Seq::<Seq<char>>::empty());
        assert(views_of(items@) =~= Seq::<E::V>::empty());
    }
    while j < values.len()
        invariant
            j <= values.len(),
            ps == values.deep_view(),
            spec_parse_pieces::<E>(ps.take(j as int)) == Ok::<Seq<E::V>, Seq<char>>(
                views_of(items@),
            ),
        decreases values.len() - j,
    {
        let piece: &String = &values[j];
        proof {
            assert(piece@ == ps[j as int]);
        }
        match E::parse_tag(piece.as_str()) {
            Some(v) => {
                proof {
                    lemma_parse_pieces_concat::<E>(ps.take(j as int), seq![ps[j as int]]);
                    assert(ps.take(j + 1) =~= ps.take(j as int) + seq![ps[j as int]]);
                    assert(spec_parse_pieces::<E>(Seq::<Seq<char>>::empty())
                        == Ok::<Seq<E::V>, Seq<char>>(Seq::<E::V>::empty()));
                    assert(seq![ps[j as int]].drop_first() =~= Seq::<Seq<char>>::empty());
                    assert(spec_parse_pieces::<E>(seq![ps[j as int]]) == Ok::<Seq<E::V>, Seq<char>>(
                        seq![v@],
                    )) by {
                        assert(seq![v@] + Seq::<E::V>::empty() =~= seq![v@]);
                    }
                    assert(views_of(items@.push(v)) =~= views_of(items@) + seq![v@]);
                }
                items.push(v);
            },
            None => {
                proof {
                    lemma_parse_pieces_concat::<E>(ps.take(j as int), ps.skip(j as int));
                    assert(ps =~= ps.take(j as int) + ps.skip(j as int));
                    assert(ps.skip(j as int).len() > 0);
                    assert(ps.skip(j as int)[0] == ps[j as int]);
                }
                return Err(FieldParseError { field: E::kind_name_str(), value: piece.clone() });
            },
        }
        j = j + 1;
    }
    proof {
        assert(ps.take(values.len() as int) =~= ps);
    }
    Ok(FieldList(items))
}

/// Free-form values always parse back to themselves: the `String`
/// instance accepts every string as its own tag, so a free-form list
/// parse never fails.
pub proof fn lemma_parse_pieces_free(vs: Seq<Seq<char>>)
    ensures
        spec_parse_pieces::<String>(vs) == Ok::<Seq<Seq<char>>, Seq<char>>(vs),
    decreases vs.len(),
{
    if vs.len() == 0 {
        assert(Seq::<Seq<char>>::empty() =~= vs);
    } else {
        lemma_parse_pieces_free(vs.drop_first());
        assert(seq![vs[0]] + vs.drop_first() =~= vs);
    }
}

/// No grant-type tag is empty or holds the form or storage delimiter.
pub proof fn lemma_grant_type_tags_wf(d: char)
    requires
        d == crate::FORM_DELIMITER || d == crate::STORAGE_DELIMITER,
    ensures
        forall|v: GrantType|
            (#[trigger] GrantType::tag(v)).len() > 0 && !GrantType::tag(v).contains(d),
{
    reveal_strlit("authorization_code");
    reveal_strlit("implicit");
    reveal_strlit("refresh_token");
    reveal_strlit("client_credentials");
    assert forall|v: GrantType|
        (#[trigger] GrantType::tag(v)).len() > 0 && !GrantType::tag(v).contains(d) by {
        let t = GrantType::tag(v);
        assert(forall|k: int| 0 <= k < t.len() ==> t[k] != d);
        if t.contains(d) {
            let k = choose|k: int| 0 <= k < t.len() && t[k] == d;
            assert(false);
        }
    }
}

/// No response-type tag is empty or holds the form or storage delimiter.
pub proof fn lemma_response_type_tags_wf(d: char)
    requires
        d == crate::FORM_DELIMITER || d == crate::STORAGE_DELIMITER,
    ensures
        forall|v: ResponseType|
            (#[trigger] ResponseType::tag(v)).len() > 0 && !ResponseType::tag(v).contains(d),
{
    reveal_strlit("code");
    reveal_strlit("token");
    reveal_strlit("id_token");
    assert forall|v: ResponseType|
        (#[trigger] ResponseType::tag(v)).len() > 0 && !ResponseType::tag(v).contains(d) by {
        let t = ResponseType::tag(v);
        assert(forall|k: int| 0 <= k < t.len() ==> t[k] != d);
        if t.contains(d) {
            let k = choose|k: int| 0 <= k < t.len() && t[k] == d;
            assert(false);
        }
    }
}

/// No scope tag is empty or holds the form or storage delimiter.
pub proof fn lemma_scope_tags_wf(d: char)
    requires
        d == crate::FORM_DELIMITER || d == crate::STORAGE_DELIMITER,
    ensures
        forall|v: ScopeValue|
            (#[trigger] ScopeValue::tag(v)).len() > 0 && !ScopeValue::tag(v).contains(d),
{
    reveal_strlit("openid");
    reveal_strlit("profile");
    reveal_strlit("email");
    reveal_strlit("address");
    reveal_strlit("phone");
    assert forall|v: ScopeValue|
        (#[trigger] ScopeValue::tag(v)).len() > 0 && !ScopeValue::tag(v).contains(d) by {
        let t = ScopeValue::tag(v);
        assert(forall|k: int| 0 <= k < t.len() ==> t[k] != d);
        if t.contains(d) {
            let k = choose|k: int| 0 <= k < t.len() && t[k] == d;
            assert(false);
        }
    }
}

/// The index of the first occurrence of `c` in `s`.
pub open spec fn spec_find_char(s: Seq<char>, c: char) -> Option<int>
    decreases s.len(),
{
    if s.len() == 0 {
        None
    } else if s[0] == c {
        Some(0int)
    } else {
        match spec_find_char(s.drop_first(), c) {
            Some(i) => Some(i + 1),
            None => None,
        }
    }
}

/// The first occurrence is an occurrence, and nothing before it is one.
pub proof fn lemma_find_char(s: Seq<char>, c: char)
    ensures
        match spec_find_char(s, c) {
            Some(i) => 0 <= i < s.len() && s[i] == c && forall|k: int| 0 <= k < i ==> s[k] != c,
            None => forall|k: int| 0 <= k < s.len() ==> s[k] != c,
        },
    decreases s.len(),
{
    if s.len() == 0 {
    } else if s[0] == c {
    } else {
        lemma_find_char(s.drop_first(), c);
        match spec_find_char(s.drop_first(), c) {
            Some(i) => {
                assert(s.drop_first()[i] == s[i + 1]);
                assert forall|k: int| 0 <= k < i + 1 implies s[k] != c by {
                    if k > 0 {
                        assert(s.drop_first()[k - 1] == s[k]);
                    }
                }
            },
            None => {
                assert forall|k: int| 0 <= k < s.len() implies s[k] != c by {
                    if k > 0 {
                        assert(s.drop_first()[k - 1] == s[k]);
                    }
                }
            },
        }
    }
}

/// Finds the first occurrence of `c` in `s`.
pub fn find_char(s: &str, c: char) -> (r: Option<usize>)
    ensures
        match r {
            Some(i) => spec_find_char(s@, c) == Some(i as int),
            None => spec_find_char(s@, c) is None,
        },
{
    let n = s.unicode_len();
    let mut i: usize = 0;
    while i < n
        invariant
            n == s@.len(),
            i <= n,
            forall|k: int| 0 <= k < i ==> s@[k] != c,
        decreases n - i,
    {
        if s.get_char(i) == c {
            proof {
                lemma_find_char(s@, c);
                match spec_find_char(s@, c) {
                    Some(j) => {
                        if j < i {
                            assert(s@[j] != c);
                        }
                        if j > i {
                            assert(s@[i as int] != c);
                        }
                    },
                    None => {
                        assert(s@[i as int] != c);
                    },
                }
            }
            return Some(i);
        }
        i = i + 1;
    }
    proof {
        lemma_find_char(s@, c);
        match spec_find_char(s@, c) {
            Some(j) => {
                assert(s@[j] != c);
            },
            None => {},
        }
    }
    None
}

/// The round-trip law at the grant-type field: over either delimiter, any
/// grant-type list parses back from its serialization unchanged.
pub proof fn lemma_grant_types_round_trip(l: Seq<GrantType>, d: char)
    requires
        d == crate::FORM_DELIMITER || d == crate::STORAGE_DELIMITER,
    ensures
        spec_parse_list::<GrantType>(spec_serialize_list::<GrantType>(l, d), d) == Ok::<
            Seq<GrantType>,
            Seq<char>,
        >(l),
{
    lemma_grant_type_tags_wf(d);
    lemma_field_list_round_trip::<GrantType>(l, d);
}

/// The round-trip law at the response-type field.
pub proof fn lemma_response_types_round_trip(l: Seq<ResponseType>, d: char)
    requires
        d == crate::FORM_DELIMITER || d == crate::STORAGE_DELIMITER,
    ensures
        spec_parse_list::<ResponseType>(spec_serialize_list::<ResponseType>(l, d), d) == Ok::<
            Seq<ResponseType>,
            Seq<char>,
        >(l),
{
    lemma_response_type_tags_wf(d);
    lemma_field_list_round_trip::<ResponseType>(l, d);
}

/// The round-trip law at the scope field.
pub proof fn lemma_scope_round_trip(l: Seq<ScopeValue>, d: char)
    requires
        d == crate::FORM_DELIMITER || d == crate::STORAGE_DELIMITER,
    ensures
        spec_parse_list::<ScopeValue>(spec_serialize_list::<ScopeValue>(l, d), d) == Ok::<
            Seq<ScopeValue>,
            Seq<char>,
        >(l),
{
    lemma_scope_tags_wf(d);
    lemma_field_list_round_trip::<ScopeValue>(l, d);
}

/// The condition under which the round-trip law holds of a list: no
/// element's tag is empty or contains the delimiter.
pub open spec fn tags_delimiter_free<E: Tagged>(l: Seq<E::V>, d: char) -> bool {
    forall|i: int|
        0 <= i < l.len() ==> (#[trigger] E::tag(l[i])).len() > 0 && !E::tag(l[i]).contains(d)
}

impl<E: Tagged> FieldList<E> {
    /// Serializes like `serialize`, but rejects a list holding an element
    /// whose tag is empty or contains the delimiter — the values a later
    /// parse could not return unchanged.
    pub fn serialize_checked(&self, delimiter: char) -> (r: Option<String>)
        ensures
            match r {
                Some(s) => s@ == spec_serialize_list::<E>(self@, delimiter)
                    && tags_delimiter_free::<E>(self@, delimiter),
                None => !tags_delimiter_free::<E>(self@, delimiter),
            },
    {
        let n = self.0.len();
        let mut j: usize = 0;
        while j < n
            invariant
                j <= n,
                n == self.0@.len(),
                forall|k: int|
                    0 <= k < j ==> (#[trigger] E::tag(self@[k])).len() > 0 && !E::tag(
                        self@[k],
                    ).contains(delimiter),
            decreases n - j,
        {
            let t = (&self.0[j]).serialize_tag();
            proof {
                assert(t@ == E::tag(self@[j as int]));
            }
            if t.as_str().unicode_len() == 0 {
                return None;
            }
            match find_char(t.as_str(), delimiter) {
                Some(i) => {
                    proof {
                        lemma_find_char(t@, delimiter);
                        assert(t@[i as int] == delimiter);
                        assert(t@.contains(delimiter));
                    }
                    return None;
                },
                None => {
                    proof {
                        lemma_find_char(t@, delimiter);
                        assert(!t@.contains(delimiter)) by {
                            if t@.contains(delimiter) {
                                let w = choose|w: int|
                                    0 <= w < t@.len() && t@[w] == delimiter;
                                assert(t@[w] != delimiter);
                            }
                        }
                    }
                },
            }
            j = j + 1;
        }
        Some(self.serialize(delimiter))
    }
}

/// Grant types of a registered client.
pub type GrantTypes = FieldList<GrantType>;

/// Response types of a registered client.
pub type ResponseTypes = FieldList<ResponseType>;

/// Scope values of a registered client.
pub type Scope = FieldList<ScopeValue>;

/// Redirect URIs of a registered client: free-form strings.
pub type RedirectUris = FieldList<String>;

} // verus!

