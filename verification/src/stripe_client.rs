//! Requests to the Stripe API: what is sent where. Sending is the caller's part.

use crate::text::{join3, push_char};
use vstd::prelude::*;
use vstd::string::StringExecFns;

verus! {

/// The decimal digit of a value below ten.
pub open spec fn digit(n: int) -> char {
    if n == 0 { '0' } else if n == 1 { '1' } else if n == 2 { '2' } else if n == 3 { '3' }
    else if n == 4 { '4' } else if n == 5 { '5' } else if n == 6 { '6' } else if n == 7 { '7' }
    else if n == 8 { '8' } else { '9' }
}

/// The decimal digits of a natural number, without leading zeros.
pub open spec fn digits(n: nat) -> Seq<char>
    decreases n,
{
    if n < 10 {
        seq![digit(n as int)]
    } else {
        digits(n / 10).push(digit((n % 10) as int))
    }
}

/// A number in decimal, with a minus sign where it is negative.
pub open spec fn decimal(n: int) -> Seq<char> {
    if n < 0 {
        seq!['-'] + digits((-n) as nat)
    } else {
        digits(n as nat)
    }
}

fn digit_char(n: u64) -> (c: char)
    requires
        n < 10,
    ensures
        c == digit(n as int),
{
    if n == 0 { '0' } else if n == 1 { '1' } else if n == 2 { '2' } else if n == 3 { '3' }
    else if n == 4 { '4' } else if n == 5 { '5' } else if n == 6 { '6' } else if n == 7 { '7' }
    else if n == 8 { '8' } else { '9' }
}

fn push_digits(text: &mut String, n: u64)
    ensures
        final(text)@ == old(text)@ + digits(n as nat),
    decreases n,
{
    if n >= 10 {
        push_digits(text, n / 10);
    }
    push_char(text, digit_char(n % 10));
    assert(text@ =~= old(text)@ + digits(n as nat));
}

/// An amount in decimal.
pub fn amount_to_string(amount: i64) -> (text: String)
    ensures
        text@ == decimal(amount as int),
{
    let mut text = String::new();
    if amount < 0 {
        push_char(&mut text, '-');
        let magnitude: u64 = if amount == i64::MIN {
            0x8000_0000_0000_0000
        } else {
            (-amount) as u64
        };
        push_digits(&mut text, magnitude);
        assert(text@ =~= seq!['-'] + digits((-amount) as nat));
    } else {
        push_digits(&mut text, amount as u64);
        assert(text@ =~= digits(amount as nat));
    }
    text
}

/// A form to post to the API.
#[derive(Debug)]
pub struct StripeRequest {
    pub url: String,
    /// The user name of the basic authentication; the password is empty.
    pub api_key: String,
    pub params: Vec<(String, String)>,
}

pub open spec fn pair_view(p: (String, String)) -> (Seq<char>, Seq<char>) {
    (p.0@, p.1@)
}

/// The fields of a form.
pub open spec fn params_view(params: Seq<(String, String)>) -> Seq<(Seq<char>, Seq<char>)> {
    params.map_values(|p: (String, String)| pair_view(p))
}

/// The form fields of the metadata of a charge: `metadata[key]` for each key.
pub open spec fn metadata_fields(metadata: Seq<(Seq<char>, Seq<char>)>) -> Seq<(Seq<char>, Seq<char>)> {
    metadata.map_values(|p: (Seq<char>, Seq<char>)| ("metadata["@ + p.0 + "]"@, p.1))
}

/// The form fields of a charge.
pub open spec fn charge_fields(
    token: Seq<char>,
    amount: i64,
    currency: Seq<char>,
    description: Seq<char>,
    capture: bool,
    metadata: Seq<(Seq<char>, Seq<char>)>,
) -> Seq<(Seq<char>, Seq<char>)> {
    seq![
        ("currency"@, currency),
        ("amount"@, decimal(amount as int)),
        ("description"@, description),
        ("source"@, token),
        ("capture"@, if capture { "true"@ } else { "false"@ }),
    ] + metadata_fields(metadata)
}

/// A client of the Stripe API.
pub struct StripeClient {
    api_key: String,
}

impl StripeClient {
    /// The key that the client signs its requests with.
    pub closed spec fn key(&self) -> Seq<char> {
        self.api_key@
    }

    pub fn new(api_key: String) -> (client: StripeClient)
        ensures
            client.key() == api_key@,
    {
        StripeClient { api_key }
    }

    /// The request that charges a card at once.
    pub fn charge(&self, token: &str, amount: i64, currency: &str, description: &str, metadata: Vec<(String, String)>) -> (request:
        StripeRequest)
        ensures
            request.url@ == "https://api.stripe.com/v1/charges"@,
            request.api_key@ == self.key(),
            params_view(request.params@) == charge_fields(
                token@,
                amount,
                currency@,
                description@,
                true,
                params_view(metadata@),
            ),
    {
        self.create_charge(token, amount, currency, description, true, metadata)
    }

    /// The request that holds an amount on a card, to be captured later.
    pub fn auth(&self, token: &str, amount: i64, currency: &str, description: &str, metadata: Vec<(String, String)>) -> (request:
        StripeRequest)
        ensures
            request.url@ == "https://api.stripe.com/v1/charges"@,
            request.api_key@ == self.key(),
            params_view(request.params@) == charge_fields(
                token@,
                amount,
                currency@,
                description@,
                false,
                params_view(metadata@),
            ),
    {
        self.create_charge(token, amount, currency, description, false, metadata)
    }

    #[verifier::loop_isolation(false)]
    fn create_charge(
        &self,
        token: &str,
        amount: i64,
        currency: &str,
        description: &str,
        capture: bool,
        metadata: Vec<(String, String)>,
    ) -> (request: StripeRequest)
        ensures
            request.url@ == "https://api.stripe.com/v1/charges"@,
            request.api_key@ == self.key(),
            params_view(request.params@) == charge_fields(
                token@,
                amount,
                currency@,
                description@,
                capture,
                params_view(metadata@),
            ),
    {
        let mut params: Vec<(String, String)> = Vec::new();
        params.push((String::from_str("currency"), String::from_str(currency)));
        params.push((String::from_str("amount"), amount_to_string(amount)));
        params.push((String::from_str("description"), String::from_str(description)));
        params.push((String::from_str("source"), String::from_str(token)));
        params.push(
            (String::from_str("capture"), if capture {
                String::from_str("true")
            } else {
                String::from_str("false")
            }),
        );
        let ghost head = params_view(params@);
        assert(head =~= charge_fields(token@, amount, currency@, description@, capture, Seq::empty()));
        let ghost fields = metadata_fields(params_view(metadata@));
        let mut i: usize = 0;
        while i < metadata.len()
            invariant
                i <= metadata.len(),
                fields == metadata_fields(params_view(metadata@)),
                params_view(params@) =~= head + fields.take(i as int),
            decreases metadata.len() - i,
        {
            let name = join3("metadata[", metadata[i].0.as_str(), "]");
            let value = metadata[i].1.clone();
            let ghost before = params_view(params@);
            assert(params_view(metadata@)[i as int] == pair_view(metadata@[i as int]));
            assert(fields[i as int] == (name@, value@));
            params.push((name, value));
            assert(params_view(params@) =~= before.push((name@, value@)));
            assert(fields.take(i + 1) =~= fields.take(i as int).push(fields[i as int]));
            assert(head + fields.take(i + 1) =~= (head + fields.take(i as int)).push(fields[i as int]));
            i += 1;
        }
        assert(fields.take(i as int) =~= fields);
        StripeRequest {
            url: String::from_str("https://api.stripe.com/v1/charges"),
            api_key: self.api_key.clone(),
            params,
        }
    }

    /// The request that gives the amount of a charge back.
    pub fn refund(&self, charge_id: &str) -> (request: StripeRequest)
        ensures
            request.url@ == "https://api.stripe.com/v1/refunds"@,
            request.api_key@ == self.key(),
            params_view(request.params@) == seq![("charge"@, charge_id@)],
    {
        let mut params: Vec<(String, String)> = Vec::new();
        params.push((String::from_str("charge"), String::from_str(charge_id)));
        assert(params_view(params@) =~= seq![("charge"@, charge_id@)]);
        StripeRequest {
            url: String::from_str("https://api.stripe.com/v1/refunds"),
            api_key: self.api_key.clone(),
            params,
        }
    }

    /// The request that captures an amount held on a card.
    pub fn complete(&self, charge_id: &str) -> (request: StripeRequest)
        ensures
            request.url@ == "https://api.stripe.com/v1/charges/"@ + charge_id@ + "/capture"@,
            request.api_key@ == self.key(),
            params_view(request.params@) == Seq::<(Seq<char>, Seq<char>)>::empty(),
    {
        let params: Vec<(String, String)> = Vec::new();
        assert(params_view(params@) =~= Seq::empty());
        StripeRequest {
            url: join3("https://api.stripe.com/v1/charges/", charge_id, "/capture"),
            api_key: self.api_key.clone(),
            params,
        }
    }
}

} // verus!
