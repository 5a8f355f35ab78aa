//! The decisions of the web pages: sessions, the sign-in callback, and the
//! reward for a report.
use vstd::prelude::*;
use crate::model::{page_of, report_url, BottleId, Config, SessionId, User, UserId, REPORTXP};

verus! {

/// The address that the sign-in provider sends users back to: `{host}/oauth`.
pub fn oauth_redirect_url(cfg: &Config) -> (s: String)
    ensures
        s@ == cfg.host_url@ + "/oauth"@,
{
    let mut s = cfg.host_url.clone();
    s.append("/oauth");
    s
}

/// A random session id: `uuid::Uuid::new_v4`, read as 128 bits, big-endian.
/// Its source fills the 16 bytes at random and then marks them as a random
/// (version 4) UUID of the RFC 4122 variant: that marking is all that is
/// stated; the other 122 bits are random.
#[verifier::external_body]
fn new_session_id() -> (id: SessionId)
    ensures
        is_random_uuid(id),
{
    u128::from_be_bytes(*uuid::Uuid::new_v4().as_bytes())
}

/// The lowercase hexadecimal digit for `d` (0 to 15).
pub open spec fn hex_char(d: int) -> char {
    if d < 10 {
        (('0' as int) + d) as char
    } else {
        (('a' as int) + d - 10) as char
    }
}

/// The `i`-th of the 32 hexadecimal digits of `v`, the most significant first.
pub open spec fn nibble(v: u128, i: int) -> int {
    ((v as int) / vstd::arithmetic::power::pow(16, (31 - i) as nat)) % 16
}

/// Whether `v` is marked as a random UUID: version digit (the 13th hexadecimal
/// digit) 4, and variant bits `10` (the 17th digit is 8, 9, a or b).
pub open spec fn is_random_uuid(v: u128) -> bool {
    &&& nibble(v, 12) == 4
    &&& 8 <= nibble(v, 16) < 12
}

/// The hyphenated lowercase text of a UUID: 32 hexadecimal digits in groups of
/// 8, 4, 4, 4 and 12, joined by `-`.
pub open spec fn uuid_text(v: u128) -> Seq<char> {
    Seq::new(
        36,
        |k: int|
            if k == 8 || k == 13 || k == 18 || k == 23 {
                '-'
            } else {
                let i = if k < 8 {
                    k
                } else if k < 13 {
                    k - 1
                } else if k < 18 {
                    k - 2
                } else if k < 23 {
                    k - 3
                } else {
                    k - 4
                };
                hex_char(nibble(v, i))
            },
    )
}

/// The text of a session id, as `uuid::Uuid`'s `Display` writes it: the
/// source writes the bytes in order as lowercase hexadecimal, `{:08x}-{:04x}-`
/// `{:04x}-{:02x}{:02x}-` and six more `{:02x}`.
#[verifier::external_body]
pub fn session_token(id: SessionId) -> (s: String)
    ensures
        s@ == uuid_text(id),
{
    uuid::Uuid::from_uuid_bytes(id.to_be_bytes()).to_string()
}

/// The web session of a visitor: its id and the page to return to after signing in.
pub struct SessionData {
    pub id: SessionId,
    pub redirect: Option<String>,
}

impl SessionData {
    /// A fresh session with a random id, marked as a random UUID, and no page
    /// to return to.
    pub fn new() -> (s: SessionData)
        ensures
            is_random_uuid(s.id),
            s.redirect is None,
    {
        SessionData { id: new_session_id(), redirect: None }
    }
}

/// What the sign-in callback does.
pub enum Callback {
    /// The `state` does not match the session: the request is refused.
    Refuse,
    /// The `state` matches: exchange `code` (when given) for a token that
    /// binds the session to the user, then return to `redirect` (or answer plainly).
    Accept { code: Option<String>, redirect: Option<String> },
}

/// The sign-in callback: it goes on only when the `state` it carries is the
/// text of the visitor's session id.
pub fn oauth_callback(state: Option<String>, code: Option<String>, session: SessionData) -> (c: Callback)
    ensures
        (state matches Some(s) && s@ == uuid_text(session.id)) ==> c == (Callback::Accept {
            code,
            redirect: session.redirect,
        }),
        !(state matches Some(s) && s@ == uuid_text(session.id)) ==> c is Refuse,
{
    match state {
        Some(s) => {
            let expected = session_token(session.id);
            if s == expected {
                Callback::Accept { code, redirect: session.redirect }
            } else {
                Callback::Refuse
            }
        },
        None => Callback::Refuse,
    }
}

/// A signed-in user who files a new report earns `REPORTXP`; a report that
/// was already filed earns nothing.
pub fn report_outcome(user: &mut User, already_exists: bool)
    requires
        !already_exists ==> old(user).xp + REPORTXP <= i32::MAX,
    ensures
        already_exists ==> *final(user) == *old(user),
        !already_exists ==> *final(user) == (User { xp: (old(user).xp + REPORTXP) as i32, ..*old(user) }),
{
    if !already_exists {
        user.xp = user.xp + REPORTXP;
    }
}

/// Where the sign-in provider asks users to sign in.
pub const AUTHORIZE_URL: &'static str = "https://discordapp.com/api/oauth2/authorize";
/// Where the sign-in provider exchanges codes for tokens.
pub const TOKEN_URL: &'static str = "https://discordapp.com/api/oauth2/token";
/// What the service asks to know of a user who signs in.
pub const SIGN_IN_SCOPE: &'static str = "identify";

/// The sign-in address that `oauth2` builds from these values.
pub uninterp spec fn sign_in_text(
    client_id: Seq<char>,
    auth_url: Seq<char>,
    redirect_url: Seq<char>,
    scope: Seq<char>,
    state: Seq<char>,
) -> Seq<char>;

/// The sign-in address: `oauth2::Config::new` with the client and the two
/// provider addresses, `add_scope`, `set_redirect_url`, `set_state`, then
/// `authorize_url`, written out. Its source adds the client id, the scope, the
/// response type `code`, the return address and the state to the query of the
/// authorization address, so the text is named over those (the secret and the
/// token address do not enter it). `Config::new` panics on an address that
/// does not parse: `requires` admits the provider's two addresses, which do.
#[verifier::external_body]
fn sign_in_address(
    client_id: &str,
    client_secret: &str,
    auth_url: &str,
    token_url: &str,
    redirect_url: &str,
    scope: &str,
    state: &str,
) -> (s: String)
    requires
        auth_url@ == AUTHORIZE_URL@,
        token_url@ == TOKEN_URL@,
    ensures
        s@ == sign_in_text(client_id@, auth_url@, redirect_url@, scope@, state@),
{
    oauth2::Config::new(client_id, client_secret, auth_url, token_url)
        .add_scope(scope)
        .set_redirect_url(redirect_url)
        .set_state(state)
        .authorize_url()
        .to_string()
}

/// The address that sends a visitor with `session` to sign in, coming back
/// to `{host}/oauth` with the session's text as state.
pub open spec fn sign_in_for(cfg: Config, session: SessionId) -> Seq<char> {
    sign_in_text(
        cfg.client_id@,
        AUTHORIZE_URL@,
        cfg.host_url@ + "/oauth"@,
        SIGN_IN_SCOPE@,
        uuid_text(session),
    )
}

/// What the report page does.
pub enum ReportStep {
    /// The bottle id does not read as a number: the request is bad.
    BadRequest,
    /// No such bottle.
    NotFound,
    /// File a report of `bottle` by `user` (and reward a new report).
    File { bottle: BottleId, user: UserId },
    /// Remember `return_to` in session `state` and send the visitor to `address` to sign in.
    SignIn { state: SessionId, return_to: String, address: String },
}

/// The report page for bottle `bid` (`None` when the address does not read
/// as a bottle id): a missing bottle is not found; a signed-in user files the
/// report; anyone else is sent to sign in and brought back to this page.
pub fn report_page(
    bid: Option<BottleId>,
    bottle_exists: bool,
    signed_in: Option<UserId>,
    session: &SessionData,
    cfg: &Config,
) -> (r: ReportStep)
    ensures
        bid is None ==> r is BadRequest,
        (bid is Some && !bottle_exists) ==> r is NotFound,
        bid matches Some(b) ==> (bottle_exists ==> (signed_in matches Some(u) ==> r == (
        ReportStep::File { bottle: b, user: u }))),
        bid matches Some(b) ==> (bottle_exists ==> (signed_in is None ==> (r matches ReportStep::SignIn {
            state,
            return_to,
            address,
        } && state == session.id && return_to@ == page_of(cfg.host_url@, "/report/"@, b as int)
            && address@ == sign_in_for(*cfg, session.id)))),
{
    match bid {
        None => ReportStep::BadRequest,
        Some(b) => {
            if !bottle_exists {
                ReportStep::NotFound
            } else {
                match signed_in {
                    Some(u) => ReportStep::File { bottle: b, user: u },
                    None => {
                        let token = session_token(session.id);
                        let back = oauth_redirect_url(cfg);
                        let address = sign_in_address(
                            cfg.client_id.as_str(),
                            cfg.client_secret.as_str(),
                            AUTHORIZE_URL,
                            TOKEN_URL,
                            back.as_str(),
                            SIGN_IN_SCOPE,
                            token.as_str(),
                        );
                        ReportStep::SignIn {
                            state: session.id,
                            return_to: report_url(b, cfg),
                            address,
                        }
                    },
                }
            }
        },
    }
}

} // verus!
