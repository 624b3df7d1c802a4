//! Properties that hold across the encoding and the endpoint table.
use vstd::prelude::*;
use crate::encode::{decimal, digit_char, joined, signed_decimal, views};
use crate::endpoint::Endpoint;
use crate::params::list_text;
use crate::client::{env_outcome, new_client_outcome, LoginCall, QbitClient};
use crate::error::ClientError;
use crate::request::HttpMethod;

verus! {

/// The pieces of `s` between the occurrences of `sep`, the way the server reads
/// a list parameter.
pub open spec fn split(s: Seq<char>, sep: char) -> Seq<Seq<char>>
    decreases s.len(),
{
    if s.len() == 0 {
        seq![Seq::empty()]
    } else {
        let rest = split(s.drop_last(), sep);
        if s.last() == sep {
            rest.push(Seq::empty())
        } else {
            rest.update(rest.len() - 1, rest.last().push(s.last()))
        }
    }
}

/// Whether the text holds no `sep`.
pub open spec fn free_of(s: Seq<char>, sep: char) -> bool {
    forall|i: int| 0 <= i < s.len() ==> s[i] != sep
}

proof fn lemma_split_free(x: Seq<char>, sep: char)
    requires
        free_of(x, sep),
    ensures
        split(x, sep) == seq![x],
    decreases x.len(),
{
    if x.len() > 0 {
        let init = x.drop_last();
        assert(free_of(init, sep));
        lemma_split_free(init, sep);
        assert(x.last() != sep);
        assert(init.push(x.last()) =~= x);
        assert(split(x, sep) =~= seq![x]);
    } else {
        assert(x =~= Seq::<char>::empty());
    }
}

proof fn lemma_split_after_sep(a: Seq<char>, b: Seq<char>, sep: char)
    requires
        free_of(b, sep),
    ensures
        split(a + seq![sep] + b, sep) == split(a, sep).push(b),
    decreases b.len(),
{
    let s = a + seq![sep] + b;
    if b.len() == 0 {
        assert(s.drop_last() =~= a);
        assert(b =~= Seq::<char>::empty());
    } else {
        let b0 = b.drop_last();
        assert(free_of(b0, sep));
        lemma_split_after_sep(a, b0, sep);
        assert(s.drop_last() =~= a + seq![sep] + b0);
        assert(s.last() == b.last());
        assert(b0.push(b.last()) =~= b);
        assert(split(s, sep) =~= split(a, sep).push(b));
    }
}

/// A list written with a one-character separator reads back as the same list,
/// provided that it has at least one element and no element holds the separator.
pub proof fn split_undoes_join(parts: Seq<Seq<char>>, sep: char)
    requires
        parts.len() >= 1,
        forall|i: int| 0 <= i < parts.len() ==> free_of(#[trigger] parts[i], sep),
    ensures
        split(joined(parts, seq![sep]), sep) == parts,
    decreases parts.len(),
{
    if parts.len() == 1 {
        lemma_split_free(parts[0], sep);
        assert(seq![parts[0]] =~= parts);
    } else {
        let init = parts.drop_last();
        assert forall|i: int| 0 <= i < init.len() implies free_of(#[trigger] init[i], sep) by {
            assert(init[i] == parts[i]);
        }
        split_undoes_join(init, sep);
        assert(free_of(parts[parts.len() - 1], sep));
        lemma_split_after_sep(joined(init, seq![sep]), parts.last(), sep);
        assert(init.push(parts.last()) =~= parts);
    }
}

/// Hashes sent as one `|`-separated parameter read back as the same hashes,
/// when there is at least one and none holds a `|`.
pub proof fn hashes_read_back(hashes: Vec<String>)
    requires
        hashes@.len() >= 1,
        forall|i: int| 0 <= i < hashes@.len() ==> free_of(#[trigger] hashes@[i]@, '|'),
    ensures
        split(list_text(hashes, "|"@), '|') == views(hashes@),
{
    reveal_strlit("|");
    assert("|"@ =~= seq!['|']);
    assert forall|i: int| 0 <= i < views(hashes@).len() implies free_of(
        #[trigger] views(hashes@)[i],
        '|',
    ) by {
        assert(views(hashes@)[i] == hashes@[i]@);
    }
    split_undoes_join(views(hashes@), '|');
}

/// The value of a decimal digit.
pub open spec fn digit_value(c: char) -> nat {
    if c == '1' { 1 }
    else if c == '2' { 2 }
    else if c == '3' { 3 }
    else if c == '4' { 4 }
    else if c == '5' { 5 }
    else if c == '6' { 6 }
    else if c == '7' { 7 }
    else if c == '8' { 8 }
    else if c == '9' { 9 }
    else { 0 }
}

/// The number that a string of decimal digits denotes.
pub open spec fn digits_value(s: Seq<char>) -> nat
    decreases s.len(),
{
    if s.len() == 0 {
        0
    } else {
        digits_value(s.drop_last()) * 10 + digit_value(s.last())
    }
}

/// The number that an optionally signed decimal numeral denotes.
pub open spec fn signed_value(s: Seq<char>) -> int {
    if s.len() > 0 && s[0] == '-' {
        -(digits_value(s.drop_first()) as int)
    } else {
        digits_value(s) as int
    }
}

proof fn lemma_decimal_starts_with_digit(n: nat)
    ensures
        decimal(n).len() >= 1,
        decimal(n)[0] != '-',
    decreases n,
{
    if n >= 10 {
        lemma_decimal_starts_with_digit(n / 10);
    }
}

proof fn lemma_digit_reads_back(d: nat)
    requires
        d < 10,
    ensures
        digit_value(digit_char(d)) == d,
{
}

/// A number written in decimal reads back as the same number.
pub proof fn decimal_reads_back(n: nat)
    ensures
        digits_value(decimal(n)) == n,
    decreases n,
{
    let s = decimal(n);
    if n < 10 {
        lemma_digit_reads_back(n);
        assert(s.drop_last() =~= Seq::<char>::empty());
        assert(digits_value(s.drop_last()) == 0);
        assert(s.last() == digit_char(n));
    } else {
        decimal_reads_back(n / 10);
        lemma_digit_reads_back(n % 10);
        assert(s.drop_last() =~= decimal(n / 10));
        assert(s.last() == digit_char(n % 10));
        assert((n / 10) * 10 + n % 10 == n);
    }
    assert(digits_value(s) == digits_value(s.drop_last()) * 10 + digit_value(s.last()));
}

/// A signed number written in decimal reads back as the same number.
pub proof fn signed_decimal_reads_back(n: int)
    ensures
        signed_value(signed_decimal(n)) == n,
{
    if n < 0 {
        let m = (-n) as nat;
        decimal_reads_back(m);
        assert((seq!['-'] + decimal(m)).drop_first() =~= decimal(m));
    } else {
        decimal_reads_back(n as nat);
        lemma_decimal_starts_with_digit(n as nat);
    }
}

/// Every request carries its parameters in one place: a `GET` request only in
/// its query and never in a body, a `POST` request never in a query; and only
/// the upload of torrents sends a multipart body.
pub proof fn parameters_in_one_place(e: Endpoint)
    ensures
        e.method_spec() == HttpMethod::Get ==> e.form_spec() is None && e.multipart_spec() is None,
        e.method_spec() == HttpMethod::Post ==> e.query_spec() is None,
        e.multipart_spec() is Some ==> e is TorrentsAdd,
        e.query_spec() is Some ==> e.method_spec() == HttpMethod::Get,
        e.form_spec() is Some ==> e.method_spec() == HttpMethod::Post,
{
}

/// A client made with a user name and password logs in with exactly these: the
/// login request that it prepares sends them as its form, as `username` and
/// `password`, and drops the session cookies before anything else, whatever
/// becomes of the request.
pub proof fn login_sends_the_given_credentials(
    host: Seq<char>,
    username: Seq<char>,
    password: Seq<char>,
    c: QbitClient,
    login: LoginCall,
)
    requires
        new_client_outcome(host, username, password, Ok(c)),
        login.clears_session,
        c.prepared_spec(
            Endpoint::AuthLogin { username: c.auth.username, password: c.auth.password },
            login.request,
        ),
    ensures
        login.clears_session,
        login.request matches Ok(p) ==> p@.form == Some(seq![("username"@, username), ("password"@, password)])
            && p@.method == HttpMethod::Post,
{
}

/// Making a client from the environment is making it from the three values
/// read: where `credentials_from_env` gives the values of `QBIT_HOST`,
/// `QBIT_USERNAME` and `QBIT_PASSWORD`, all three lookups succeeded with these
/// values, and the client made from them is the client of the values as read.
pub proof fn env_client_is_client_of_values(
    host: Result<String, String>,
    username: Result<String, String>,
    password: Result<String, String>,
    values: Result<(String, String, String), ClientError>,
    c: Result<QbitClient, ClientError>,
)
    requires
        env_outcome(host, username, password, values),
        values matches Ok(t) && new_client_outcome(t.0@, t.1@, t.2@, c),
    ensures
        host is Ok && username is Ok && password is Ok,
        new_client_outcome(host->Ok_0@, username->Ok_0@, password->Ok_0@, c),
{
}

} // verus!
