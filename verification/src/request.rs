//! The request builder: the URL and the `Authorization` header value of one
//! lookup, computed from the client's configuration.

use crate::base64::{base64_bytes, base64_encode, base64_text, lemma_base64_round_trip};
use crate::field::{wire_names, LookupField};
use crate::text::{
    comma_joined, comma_split, lemma_comma_joined_push, lemma_comma_split_joined,
    lemma_encode_utf8_concat, occurs_in,
};
use vstd::prelude::*;
use vstd::utf8::{decode_utf8, encode_utf8, valid_utf8};

verus! {

/// The address of the lookup resource, without a trailing slash.
pub open spec fn url_base() -> Seq<char> {
    "https://lookups.twilio.com/v2/PhoneNumbers"@
}

/// The query string that asks for the given fields: nothing for no field,
/// else `?Fields=` and the fields' wire names joined by commas.
pub open spec fn query(fields: Seq<LookupField>) -> Seq<char> {
    if fields.len() == 0 {
        Seq::empty()
    } else {
        "?Fields="@ + comma_joined(wire_names(fields))
    }
}

/// The URL of the lookup of `number` with the given fields. The number is
/// embedded as it is.
pub open spec fn lookup_url(number: Seq<char>, fields: Seq<LookupField>) -> Seq<char> {
    url_base() + seq!['/'] + number + query(fields)
}

/// The account identifier and the secret token, joined by a colon.
pub open spec fn credentials(sid: Seq<char>, token: Seq<char>) -> Seq<char> {
    sid + seq![':'] + token
}

/// The value of the HTTP Basic `Authorization` header for the credentials:
/// `Basic ` and the base64 encoding of their UTF-8 bytes.
pub open spec fn basic_authorization(sid: Seq<char>, token: Seq<char>) -> Seq<char> {
    "Basic "@ + base64_text(encode_utf8(credentials(sid, token)))
}

/// The name of the header that carries the credentials.
pub const AUTHORIZATION: &'static str = "Authorization";

/// The configuration of one invocation: the account's credentials and the
/// fields to ask for, in the order in which they will be requested.
pub struct TwClient {
    pub sid: String,
    pub token: String,
    pub fields: Vec<LookupField>,
}

/// What the transport needs to perform one lookup.
pub struct LookupRequest {
    pub url: String,
    pub authorization: String,
}

impl TwClient {
    /// Whether the credentials are short enough to be encoded on this machine.
    pub open spec fn encodable(&self) -> bool {
        encode_utf8(credentials(self.sid@, self.token@)).len() <= usize::MAX / 512
    }

    /// Tells whether the credentials are short enough to be encoded.
    pub fn can_encode(&self) -> (ok: bool)
        ensures
            ok == self.encodable(),
    {
        let limit: usize = usize::MAX / 512;
        let sid_len: usize = self.sid.as_str().as_bytes().len();
        let token_len: usize = self.token.as_str().as_bytes().len();
        proof {
            let colon = seq![':'];
            assert(encode_utf8(colon).len() == 1) by {
                assert(encode_utf8(colon.drop_first()).len() == 0);
            }
            lemma_encode_utf8_concat(self.sid@, colon);
            lemma_encode_utf8_concat(self.sid@ + colon, self.token@);
        }
        sid_len < limit && token_len <= limit - sid_len - 1
    }

    /// Builds the value of the `Authorization` header.
    pub fn authorization(&self) -> (value: String)
        requires
            self.encodable(),
        ensures
            value@ == basic_authorization(self.sid@, self.token@),
    {
        let mut pair = self.sid.clone();
        pair.append(":");
        pair.append(self.token.as_str());
        proof {
            reveal_strlit(":");
            assert(":"@ =~= seq![':']);
        }
        let encoded = base64_encode(pair.as_str().as_bytes());
        let mut value = String::from_str("Basic ");
        value.append(encoded.as_str());
        value
    }

    /// Builds the URL of the lookup of `number`.
    pub fn url(&self, number: &str) -> (url: String)
        ensures
            url@ == lookup_url(number@, self.fields@),
    {
        let mut url = String::from_str("https://lookups.twilio.com/v2/PhoneNumbers");
        url.append("/");
        url.append(number);
        proof {
            reveal_strlit("/");
            assert("/"@ =~= seq!['/']);
        }
        let ghost stem = url@;
        if self.fields.len() > 0 {
            url.append("?Fields=");
            url.append(self.fields[0].name());
            assert(wire_names(self.fields@.take(1)) =~= seq![self.fields@[0].wire_name()]);
            let mut i: usize = 1;
            while i < self.fields.len()
                invariant
                    1 <= i <= self.fields.len(),
                    stem == url_base() + seq!['/'] + number@,
                    url@ == stem + "?Fields="@ + comma_joined(
                        wire_names(self.fields@.take(i as int)),
                    ),
                decreases self.fields.len() - i,
            {
                url.append(",");
                url.append(self.fields[i].name());
                proof {
                    reveal_strlit(",");
                    assert(","@ =~= seq![',']);
                    let before = wire_names(self.fields@.take(i as int));
                    let after = wire_names(self.fields@.take(i + 1));
                    assert(after =~= before.push(self.fields@[i as int].wire_name()));
                    lemma_comma_joined_push(before, self.fields@[i as int].wire_name());
                    assert(url@ =~= stem + "?Fields="@ + comma_joined(after));
                }
                i += 1;
            }
            assert(self.fields@.take(i as int) =~= self.fields@);
            assert(url@ =~= lookup_url(number@, self.fields@));
        } else {
            assert(url@ =~= lookup_url(number@, self.fields@));
        }
        url
    }

    /// Builds the URL and the header value of the lookup of `number`.
    pub fn request(&self, number: &str) -> (request: LookupRequest)
        requires
            self.encodable(),
        ensures
            request.url@ == lookup_url(number@, self.fields@),
            request.authorization@ == basic_authorization(self.sid@, self.token@),
    {
        LookupRequest { url: self.url(number), authorization: self.authorization() }
    }
}

/// The credentials that an `Authorization` header value of the Basic scheme
/// carries: what follows `Basic `, decoded from base64 and read as UTF-8.
pub open spec fn authorized_credentials(value: Seq<char>) -> Option<Seq<char>> {
    if value.len() >= 6 && value.take(6) == "Basic "@ {
        match base64_bytes(value.skip(6)) {
            Some(bytes) => if valid_utf8(bytes) {
                Some(decode_utf8(bytes))
            } else {
                None
            },
            None => None,
        }
    } else {
        None
    }
}

/// Decoding the header value built for a pair of credentials gives the
/// identifier, a colon and the token back.
pub proof fn lemma_authorization_round_trip(sid: Seq<char>, token: Seq<char>)
    ensures
        authorized_credentials(basic_authorization(sid, token)) == Some(credentials(sid, token)),
{
    let bytes = encode_utf8(credentials(sid, token));
    let value = basic_authorization(sid, token);
    reveal_strlit("Basic ");
    assert(value.take(6) =~= "Basic "@);
    assert(value.skip(6) =~= base64_text(bytes));
    lemma_base64_round_trip(bytes);
    vstd::utf8::encode_utf8_valid_utf8(credentials(sid, token));
    vstd::utf8::encode_utf8_decode_utf8(credentials(sid, token));
}

/// No wire name holds a comma.
pub proof fn lemma_wire_names_comma_free(fields: Seq<LookupField>)
    ensures
        forall|i: int|
            0 <= i < fields.len() ==> !(#[trigger] wire_names(fields)[i]).contains(','),
{
    reveal_strlit("caller_name");
    reveal_strlit("line_type_intelligence");
}

/// The query of a non-empty field list is `?Fields=` followed by a text whose
/// comma-separated pieces are the wire names of the fields asked for: each as
/// often as it was given, and in the order given.
pub proof fn lemma_query_lists_fields(fields: Seq<LookupField>)
    requires
        fields.len() > 0,
    ensures
        query(fields).take(8) == "?Fields="@,
        comma_split(query(fields).skip(8)) == wire_names(fields),
{
    reveal_strlit("?Fields=");
    let joined = comma_joined(wire_names(fields));
    assert(query(fields).take(8) =~= "?Fields="@);
    assert(query(fields).skip(8) =~= joined);
    lemma_wire_names_comma_free(fields);
    lemma_comma_split_joined(wire_names(fields));
}

/// Without fields no query is appended: `?Fields=` does not occur in the URL
/// of a number that does not hold it itself.
pub proof fn lemma_no_fields_no_query(number: Seq<char>)
    requires
        !occurs_in("?Fields="@, number),
    ensures
        !occurs_in("?Fields="@, lookup_url(number, Seq::empty())),
{
    let url = lookup_url(number, Seq::empty());
    let stem = url_base() + seq!['/'];
    let mark = "?Fields="@;
    assert(url =~= stem + number);
    reveal_strlit("?Fields=");
    reveal_strlit("https://lookups.twilio.com/v2/PhoneNumbers");
    if occurs_in(mark, url) {
        let i: int = choose|i: int|
            0 <= i && i + mark.len() <= url.len() && #[trigger] url.subrange(i, i + mark.len())
                == mark;
        let piece = url.subrange(i, i + mark.len());
        assert(piece[0] == '?');
        assert(url[i] == '?');
        assert(forall|k: int| 0 <= k < stem.len() ==> stem[k] != '?');
        let j: int = i - stem.len();
        assert(number.subrange(j, j + mark.len()) =~= piece);
    }
}

} // verus!
