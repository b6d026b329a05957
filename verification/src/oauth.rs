use vstd::prelude::*;

verus! {

pub open spec fn client_id_key() -> Seq<char> {
    seq!['c', 'l', 'i', 'e', 'n', 't', '_', 'i', 'd']
}

pub open spec fn client_secret_key() -> Seq<char> {
    seq!['c', 'l', 'i', 'e', 'n', 't', '_', 's', 'e', 'c', 'r', 'e', 't']
}

pub open spec fn grant_type_key() -> Seq<char> {
    seq!['g', 'r', 'a', 'n', 't', '_', 't', 'y', 'p', 'e']
}

pub open spec fn client_credentials() -> Seq<char> {
    seq!['c', 'l', 'i', 'e', 'n', 't', '_', 'c', 'r', 'e', 'd', 'e', 'n', 't', 'i', 'a', 'l', 's']
}

/// The form fields of an app access token request (OAuth client credentials
/// grant), in the order Twitch's token request sends them.
pub fn client_credentials_form<'a>(client_id: &'a str, client_secret: &'a str) -> (res: [(&'a str, &'a str); 3])
    ensures
        res[0].0@ == client_id_key() && res[0].1@ == client_id@,
        res[1].0@ == client_secret_key() && res[1].1@ == client_secret@,
        res[2].0@ == grant_type_key() && res[2].1@ == client_credentials(),
{
    proof {
        reveal_strlit("client_id");
        reveal_strlit("client_secret");
        reveal_strlit("grant_type");
        reveal_strlit("client_credentials");
    }
    assert("client_id"@ =~= client_id_key());
    assert("client_secret"@ =~= client_secret_key());
    assert("grant_type"@ =~= grant_type_key());
    assert("client_credentials"@ =~= client_credentials());
    [
        ("client_id", client_id),
        ("client_secret", client_secret),
        ("grant_type", "client_credentials"),
    ]
}

/// The form is the OAuth client credentials grant: `client_id`,
/// `client_secret` and `grant_type=client_credentials`.
pub proof fn lemma_client_credentials_form_fields()
    ensures
        client_id_key() == seq!['c', 'l', 'i', 'e', 'n', 't', '_', 'i', 'd'],
        client_secret_key() == seq!['c', 'l', 'i', 'e', 'n', 't', '_', 's', 'e', 'c', 'r', 'e', 't'],
        grant_type_key() == seq!['g', 'r', 'a', 'n', 't', '_', 't', 'y', 'p', 'e'],
        client_credentials() == seq![
            'c', 'l', 'i', 'e', 'n', 't', '_', 'c', 'r', 'e', 'd', 'e', 'n', 't', 'i', 'a', 'l', 's',
        ],
{
}

} // verus!
