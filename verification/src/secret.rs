//! Wire contract of the secret portal interface
//! (`org.freedesktop.portal.Secret`).
//!
//! The interface lets a sandboxed application retrieve a per-application
//! secret. The single method takes a file descriptor to write the secret
//! into and an options structure holding at most one field: an optional
//! continuation token returned by a previous call. On the wire the options
//! travel as a dictionary of string keys; this module models that dictionary
//! as the list of its entries and proves that options round-trip through it,
//! both with and without the token.

use vstd::prelude::*;

verus! {

/// Options of a secret-retrieval request.
#[derive(Debug)]
pub struct ScecretOptions {
    /// A string returned by a previous retrieval call.
    pub token: Option<String>,
}

impl View for ScecretOptions {
    type V = Option<Seq<char>>;

    open spec fn view(&self) -> Option<Seq<char>> {
        match self.token {
            Some(t) => Some(t@),
            None => None,
        }
    }
}

impl Default for ScecretOptions {
    /// Options with no continuation token.
    fn default() -> (r: Self)
        ensures
            r@ is None,
    {
        ScecretOptions { token: None }
    }
}

impl ScecretOptions {
    /// Set the continuation token, keeping nothing of the previous options.
    pub fn token(self, token: &str) -> (r: Self)
        ensures
            r@ == Some(token@),
    {
        ScecretOptions { token: Some(token.to_owned()) }
    }
}

/// The dictionary entries that carry the options on the wire: one `token`
/// entry when a token is present, none otherwise.
pub open spec fn encoded_options(o: Option<Seq<char>>) -> Seq<(Seq<char>, Seq<char>)> {
    match o {
        None => Seq::empty(),
        Some(t) => seq![("token"@, t)],
    }
}

/// The options, if any, that a dictionary decodes to: an empty dictionary
/// holds no token, a single `token` entry holds one, and any other
/// dictionary is not the encoding of options.
pub open spec fn decoded_options(entries: Seq<(Seq<char>, Seq<char>)>) -> Option<
    Option<Seq<char>>,
> {
    if entries.len() == 0 {
        Some(None)
    } else if entries.len() == 1 && entries[0].0 == "token"@ {
        Some(Some(entries[0].1))
    } else {
        None
    }
}

impl ScecretOptions {
    /// Encode these options as the entries of their wire dictionary.
    pub fn encode_dict(&self) -> (r: Vec<(String, String)>)
        ensures
            r.deep_view() == encoded_options(self@),
    {
        match &self.token {
            None => {
                let r: Vec<(String, String)> = Vec::new();
                proof {
                    assert(r.deep_view() =~= encoded_options(self@));
                }
                r
            },
            Some(t) => {
                let mut r: Vec<(String, String)> = Vec::new();
                r.push(("token".to_owned(), t.clone()));
                proof {
                    assert(r.deep_view() =~= encoded_options(self@));
                }
                r
            },
        }
    }

    /// Decode dictionary entries back into options; a dictionary that is not
    /// the encoding of any options value is rejected.
    pub fn decode_dict(entries: &Vec<(String, String)>) -> (r: Option<ScecretOptions>)
        ensures
            (match decoded_options(entries.deep_view()) {
                Some(o) => r is Some && r->Some_0@ == o,
                None => r is None,
            }),
    {
        if entries.len() == 0 {
            return Some(ScecretOptions { token: None });
        }
        if entries.len() == 1 {
            let key_expected = "token".to_owned();
            if entries[0].0 == key_expected {
                let value = entries[0].1.clone();
                return Some(ScecretOptions { token: Some(value) });
            }
        }
        None
    }
}

/// Encoding options and decoding the entries gives the options back, both
/// when a token is present and when none is.
pub proof fn lemma_options_round_trip(o: Option<Seq<char>>)
    ensures
        decoded_options(encoded_options(o)) == Some(o),
{
    if o is Some {
        assert(encoded_options(o).len() == 1);
    }
}

} // verus!
