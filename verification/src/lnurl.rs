//! LNURL-pay request and response shapes, and the pure parts of the
//! HTTP handlers: amount validation, the verification response, the
//! well-known response and the landing-page decision.

use vstd::prelude::*;
use vstd::string::StringExecFns;

use crate::errors::CoreError;
use crate::invoice_db::lemma_filter_push;
use crate::invoice_state::InvoiceState;
use crate::invoices::Invoice;
use crate::user_db::{has_user_name, user_index_by_name, UserDb};
use crate::users::user_eq;

verus! {

/// The smallest amount, in millisatoshi, this gateway issues an
/// invoice for.
pub const MIN_AMOUNT: u64 = 1000;

/// Accept an amount exactly when it is at least `MIN_AMOUNT`.
pub fn validate_amount(amount: u64) -> (r: Result<(), CoreError>)
    ensures
        r is Ok <==> amount >= MIN_AMOUNT,
        r matches Err(e) ==> e == CoreError::InvalidAmount,
{
    if amount < MIN_AMOUNT {
        return Err(CoreError::InvalidAmount);
    }
    Ok(())
}

/// The status field of an LNURL response.
#[derive(Clone, Copy, Debug, PartialEq, Eq, Structural)]
pub enum LnurlStatus {
    Okay,
    Error,
}

/// The tag field of an LNURL pay-request response.
#[derive(Clone, Copy, Debug, PartialEq, Eq, Structural)]
pub enum LnurlType {
    PayRequest,
}

/// The kind of one metadata entry of a pay request.
#[derive(Clone, Copy, Debug, PartialEq, Eq, Structural)]
pub enum MetadataType {
    TextPlain,
    ImagePngBase64,
    ImageJpegBase64,
    TextEmail,
    TextIdentifier,
}

/// One metadata entry of a pay request.
#[derive(Debug)]
pub struct MetadataEntry {
    pub metadata_type: MetadataType,
    pub content: String,
}

/// The query parameters of an LNURL callback request.
#[derive(Debug)]
pub struct LnurlCallbackParams {
    pub amount: u64,
    pub nonce: Option<String>,
    pub comment: Option<String>,
    pub proofofpayer: Option<String>,
    pub nostr: Option<String>,
}

/// The success action of an LNURL callback response.
#[derive(Debug)]
pub struct LnurlCallbackSuccessAction {
    pub tag: String,
    pub message: String,
}

/// The LNURL callback response handed back to the payer.
#[derive(Debug)]
pub struct LnurlCallbackResponse {
    pub status: LnurlStatus,
    pub reason: Option<String>,
    pub pr: String,
    pub verify: url::Url,
    pub success_action: Option<LnurlCallbackSuccessAction>,
    pub routes: Option<Vec<String>>,
}

/// Wrap an issued invoice and its verification URL in the callback
/// response: status okay, no reason, no success action, empty route
/// list.
pub fn create_callback_response(bolt11: String, verify_url: url::Url) -> (r: Result<
    LnurlCallbackResponse,
    CoreError,
>)
    ensures
        r is Ok,
        r matches Ok(resp) ==> {
            &&& resp.status == LnurlStatus::Okay
            &&& resp.reason is None
            &&& resp.pr == bolt11
            &&& resp.success_action is None
            &&& resp.routes matches Some(v) && v@ =~= Seq::<String>::empty()
        },
{
    Ok(
        LnurlCallbackResponse {
            pr: bolt11,
            success_action: None,
            status: LnurlStatus::Okay,
            reason: None,
            verify: verify_url,
            routes: Some(Vec::new()),
        },
    )
}

/// The LNURL verification response for one invoice.
#[derive(Debug)]
pub struct LnurlVerifyResponse {
    pub status: LnurlStatus,
    pub settled: bool,
    pub preimage: String,
    pub pr: String,
}

/// The verification response for a stored invoice: settled exactly
/// when the invoice's lifecycle reached `Settled`.
pub fn verify_response(invoice: &Invoice) -> (r: LnurlVerifyResponse)
    ensures
        r.status == LnurlStatus::Okay,
        r.settled <==> invoice.state is Settled,
        r.preimage@ == Seq::<char>::empty(),
        r.pr@ == invoice.bolt11@,
{
    LnurlVerifyResponse {
        status: LnurlStatus::Okay,
        settled: match invoice.state {
            InvoiceState::Settled => true,
            _ => false,
        },
        preimage: String::new(),
        pr: invoice.bolt11.clone(),
    }
}

/// The text of the URL a payer calls back:
/// `https://<domain>/lnurlp/<username>/callback`.
pub open spec fn spec_callback_url(domain: Seq<char>, username: Seq<char>) -> Seq<char> {
    "https://"@ + domain + "/lnurlp/"@ + username + "/callback"@
}

/// The LNURL well-known (pay-request discovery) response for one user.
#[derive(Debug)]
pub struct LnurlWellKnownResponse {
    pub callback: String,
    pub max_sendable: u64,
    pub min_sendable: u64,
    pub metadata: String,
    pub comment_allowed: Option<i32>,
    pub tag: LnurlType,
    pub status: LnurlStatus,
    pub nostr_pubkey: Option<String>,
    pub allows_nostr: bool,
}

/// The well-known response for a registered user: the callback URL
/// under the gateway's domain, the fixed sendable range, and the
/// user's public key for zap requests.
pub fn well_known_response(domain: &String, username: &String, pubkey: &String) -> (r:
    LnurlWellKnownResponse)
    ensures
        r.callback@ == spec_callback_url(domain@, username@),
        r.max_sendable == 100000u64,
        r.min_sendable == 1000u64,
        r.metadata@ == Seq::<char>::empty(),
        r.comment_allowed is None,
        r.tag == LnurlType::PayRequest,
        r.status == LnurlStatus::Okay,
        r.nostr_pubkey matches Some(p) && p@ == pubkey@,
        r.allows_nostr,
{
    proof {
        reveal_strlit("https://");
        reveal_strlit("/lnurlp/");
        reveal_strlit("/callback");
    }
    let mut callback = "https://".to_owned();
    callback.append(domain.as_str());
    callback.append("/lnurlp/");
    callback.append(username.as_str());
    callback.append("/callback");
    LnurlWellKnownResponse {
        callback,
        max_sendable: 100000,
        min_sendable: 1000,
        metadata: String::new(),
        comment_allowed: None,
        tag: LnurlType::PayRequest,
        status: LnurlStatus::Okay,
        nostr_pubkey: Some(pubkey.clone()),
        allows_nostr: true,
    }
}

/// The query parameters of the invoice-listing endpoint.
#[derive(Debug)]
pub struct InvoiceQuery {
    pub user_id: i32,
}

/// The invoices of one user, in the order given.
pub fn invoices_for_user(invoices: Vec<Invoice>, query: &InvoiceQuery) -> (r: Vec<Invoice>)
    ensures
        r@ == invoices@.filter(|inv: Invoice| inv.app_user_id == query.user_id),
{
    let pred = Ghost(|inv: Invoice| inv.app_user_id == query.user_id);
    let mut r: Vec<Invoice> = Vec::new();
    let n = invoices.len();
    let mut i: usize = 0;
    proof {
        assert(invoices@.subrange(0, 0) =~= Seq::<Invoice>::empty());
        reveal(Seq::filter);
    }
    while i < n
        invariant
            n == invoices@.len(),
            i <= n,
            pred@ == (|inv: Invoice| inv.app_user_id == query.user_id),
            r@ == invoices@.subrange(0, i as int).filter(pred@),
        decreases n - i,
    {
        proof {
            lemma_filter_push(invoices@.subrange(0, i as int), invoices@[i as int], pred@);
            assert(invoices@.subrange(0, i as int).push(invoices@[i as int]) =~= invoices@.subrange(
                0,
                i as int + 1,
            ));
        }
        if invoices[i].app_user_id == query.user_id {
            let inv = invoices[i].clone();
            r.push(inv);
        }
        i += 1;
    }
    proof {
        assert(invoices@.subrange(0, n as int) =~= invoices@);
    }
    r
}

/// The body of a registration request; the onboarding flow is handled
/// by an external collaborator.
#[derive(Debug)]
pub struct RegisterRequest {
}

/// The body of a registration response.
#[derive(Debug)]
pub struct RegisterResponse {
}

/// What the landing page shows a visitor.
#[derive(Debug)]
pub enum HomePage {
    /// No authentication headers: offer the login flow.
    Login,
    /// Authenticated but not yet registered: offer registration.
    Register,
    /// Authenticated and registered: show the user's connection code.
    Home { pubkey: String },
}

/// Decide what the landing page shows: login when any authentication
/// header is missing, registration when the authenticated user is not
/// stored yet, and the user's home page otherwise.
pub fn home_page(
    db: &UserDb,
    user_id: &Option<String>,
    user_name: &Option<String>,
    profile_pic: &Option<String>,
) -> (r: HomePage)
    requires
        db.wf(),
    ensures
        (user_id is None || user_name is None || profile_pic is None) <==> r is Login,
        r is Register ==> (user_name matches Some(nm) && !has_user_name(db@, nm@)),
        r matches HomePage::Home { pubkey } ==> (user_name matches Some(nm) && has_user_name(
            db@,
            nm@,
        ) && pubkey@ == db@[user_index_by_name(db@, nm@)].pubkey@),
{
    if user_id.is_none() || user_name.is_none() || profile_pic.is_none() {
        return HomePage::Login;
    }
    let name = match user_name {
        Some(n) => n,
        None => {
            return HomePage::Login;
        },
    };
    match db.get_by_name(name) {
        Some(user) => {
            proof {
                let k = user_index_by_name(db@, name@);
                let w = choose|i: int| 0 <= i < db@.len() && user_eq(user, #[trigger] db@[i]);
                assert(db@[w].name@ == name@);
                assert(w == k);
            }
            HomePage::Home { pubkey: user.pubkey }
        },
        None => HomePage::Register,
    }
}

} // verus!
