use vstd::prelude::*;

use crate::store::{
    store_error_message, AuthSession, AuthSessionView, OidcAttempt, OidcAttemptView, SessionState,
    SessionStateView, StoreError,
};
use crate::text::{chars_of, option_view, push_char};

verus! {

/// The HTTP status of every refused browser request.
pub const BAD_REQUEST: u16 = 400;

/// A refused browser request: the HTTP status and the message shown on the error page.
#[derive(Clone, Debug)]
pub struct WebError {
    pub status: u16,
    pub message: String,
}

pub struct WebErrorView {
    pub status: u16,
    pub message: Seq<char>,
}

impl View for WebError {
    type V = WebErrorView;

    open spec fn view(&self) -> WebErrorView {
        WebErrorView { status: self.status, message: self.message@ }
    }
}

pub open spec fn bad_request_view(message: Seq<char>) -> WebErrorView {
    WebErrorView { status: BAD_REQUEST, message }
}

/// What a browser is told when the provider, the token signer or the request
/// itself failed: nothing of the cause, which may hold secrets.
pub open spec fn authentication_failed_view() -> WebErrorView {
    bad_request_view("authentication request failed"@)
}

/// What a browser is told when its login session was refused.
pub open spec fn store_web_error(e: StoreError) -> WebErrorView {
    bad_request_view(store_error_message(e))
}

/// The HTML escape of one character.
pub open spec fn escape_char(c: char) -> Seq<char> {
    if c == '&' {
        "&amp;"@
    } else if c == '<' {
        "&lt;"@
    } else if c == '>' {
        "&gt;"@
    } else if c == '"' {
        "&quot;"@
    } else if c == '\'' {
        "&#39;"@
    } else {
        seq![c]
    }
}

/// `s` with each markup character replaced by its HTML entity.
pub open spec fn spec_escape_html(s: Seq<char>) -> Seq<char>
    decreases s.len(),
{
    if s.len() == 0 {
        Seq::empty()
    } else {
        spec_escape_html(s.drop_last()) + escape_char(s.last())
    }
}

/// The characters that would open or close markup or an attribute value.
pub open spec fn is_markup_char(c: char) -> bool {
    c == '<' || c == '>' || c == '"' || c == '\''
}

/// The error page shown for `message`.
pub open spec fn error_page(message: Seq<char>) -> Seq<char> {
    "<!doctype html><title>Login error</title><h1>Login error</h1><p>"@ + spec_escape_html(message) + "</p>"@
}

/// `value` with `&`, `<`, `>`, `"` and `'` replaced by their HTML entities.
pub fn escape_html(value: &str) -> (result: String)
    ensures
        result@ == spec_escape_html(value@),
{
    let chars = chars_of(value);
    let mut result = String::new();
    let mut i: usize = 0;
    while i < chars.len()
        invariant
            i <= chars.len(),
            chars@ == value@,
            result@ == spec_escape_html(chars@.subrange(0, i as int)),
        decreases chars.len() - i,
    {
        let c = chars[i];
        let ghost before = result@;
        if c == '&' {
            result.append("&amp;");
        } else if c == '<' {
            result.append("&lt;");
        } else if c == '>' {
            result.append("&gt;");
        } else if c == '"' {
            result.append("&quot;");
        } else if c == '\'' {
            result.append("&#39;");
        } else {
            push_char(&mut result, c);
        }
        proof {
            let next = chars@.subrange(0, i + 1);
            assert(next.drop_last() =~= chars@.subrange(0, i as int));
            assert(next.last() == c);
            assert(result@ =~= before + escape_char(c));
        }
        i = i + 1;
    }
    assert(chars@.subrange(0, chars.len() as int) =~= chars@);
    result
}

impl WebError {
    /// A refusal shown with `message`.
    pub fn bad_request(message: String) -> (result: WebError)
        ensures
            result@ == bad_request_view(message@),
    {
        WebError { status: BAD_REQUEST, message }
    }

    /// The error page of this refusal, with its message escaped.
    pub fn page(&self) -> (result: String)
        ensures
            result@ == error_page(self.message@),
    {
        let mut page = "<!doctype html><title>Login error</title><h1>Login error</h1><p>".to_owned();
        let escaped = escape_html(self.message.as_str());
        page.append(escaped.as_str());
        page.append("</p>");
        page
    }
}

impl From<StoreError> for WebError {
    /// A refused session operation, shown with the store's message.
    fn from(error: StoreError) -> (result: WebError)
        ensures
            result@ == store_web_error(error),
    {
        WebError::bad_request(error.message())
    }
}

impl vstd::std_specs::convert::FromSpecImpl<StoreError> for WebError {
    open spec fn obeys_from_spec() -> bool {
        false
    }

    open spec fn from_spec(v: StoreError) -> WebError {
        choose|w: WebError| w@ == store_web_error(v)
    }
}

impl From<anyhow::Error> for WebError {
    /// A failure of the provider, the token signer or the request: the cause is
    /// not shown.
    fn from(_error: anyhow::Error) -> (result: WebError)
        ensures
            result@ == authentication_failed_view(),
    {
        WebError::bad_request("authentication request failed".to_owned())
    }
}

impl vstd::std_specs::convert::FromSpecImpl<anyhow::Error> for WebError {
    open spec fn obeys_from_spec() -> bool {
        false
    }

    open spec fn from_spec(v: anyhow::Error) -> WebError {
        choose|w: WebError| w@ == authentication_failed_view()
    }
}

/// Escaped text holds no character that could open or close markup or an
/// attribute value, whatever it was made from.
pub proof fn law_escaped_text_has_no_markup(s: Seq<char>)
    ensures
        forall|i: int| 0 <= i < spec_escape_html(s).len() ==> !is_markup_char(#[trigger] spec_escape_html(s)[i]),
    decreases s.len(),
{
    if s.len() > 0 {
        law_escaped_text_has_no_markup(s.drop_last());
        reveal_strlit("&amp;");
        reveal_strlit("&lt;");
        reveal_strlit("&gt;");
        reveal_strlit("&quot;");
        reveal_strlit("&#39;");
        let prefix = spec_escape_html(s.drop_last());
        let tail = escape_char(s.last());
        assert forall|i: int| 0 <= i < tail.len() implies !is_markup_char(#[trigger] tail[i]) by {}
        assert forall|i: int| 0 <= i < spec_escape_html(s).len() implies !is_markup_char(
            #[trigger] spec_escape_html(s)[i],
        ) by {
            if i < prefix.len() {
                assert(spec_escape_html(s)[i] == prefix[i]);
            } else {
                assert(spec_escape_html(s)[i] == tail[i - prefix.len()]);
            }
        }
    }
}

/// HTML text read back: the five entities that escaping produces are
/// decoded in one left-to-right scan; every other character stands for itself.
pub open spec fn spec_unescape_html(s: Seq<char>) -> Seq<char>
    decreases s.len(),
{
    if s.len() == 0 {
        Seq::empty()
    } else if seq!['&', 'a', 'm', 'p', ';'].is_prefix_of(s) {
        seq!['&'] + spec_unescape_html(s.skip(5))
    } else if seq!['&', 'l', 't', ';'].is_prefix_of(s) {
        seq!['<'] + spec_unescape_html(s.skip(4))
    } else if seq!['&', 'g', 't', ';'].is_prefix_of(s) {
        seq!['>'] + spec_unescape_html(s.skip(4))
    } else if seq!['&', 'q', 'u', 'o', 't', ';'].is_prefix_of(s) {
        seq!['"'] + spec_unescape_html(s.skip(6))
    } else if seq!['&', '#', '3', '9', ';'].is_prefix_of(s) {
        seq!['\''] + spec_unescape_html(s.skip(5))
    } else {
        seq![s[0]] + spec_unescape_html(s.skip(1))
    }
}

proof fn lemma_escape_prepend(c: char, rest: Seq<char>)
    ensures
        spec_escape_html(seq![c] + rest) == escape_char(c) + spec_escape_html(rest),
    decreases rest.len(),
{
    let t = seq![c] + rest;
    if rest.len() == 0 {
        assert(t.drop_last() =~= Seq::<char>::empty());
        assert(t.last() == c);
        assert(spec_escape_html(t) == spec_escape_html(t.drop_last()) + escape_char(t.last()));
        assert(spec_escape_html(rest) == Seq::<char>::empty());
        assert(escape_char(c) + Seq::<char>::empty() =~= escape_char(c));
        assert(Seq::<char>::empty() + escape_char(c) =~= escape_char(c));
    } else {
        lemma_escape_prepend(c, rest.drop_last());
        assert(t.drop_last() =~= seq![c] + rest.drop_last());
        assert(t.last() == rest.last());
        assert(spec_escape_html(t) == spec_escape_html(t.drop_last()) + escape_char(t.last()));
        assert(spec_escape_html(rest) == spec_escape_html(rest.drop_last()) + escape_char(rest.last()));
        assert(spec_escape_html(t) =~= escape_char(c) + spec_escape_html(rest.drop_last()) + escape_char(rest.last()));
        assert(escape_char(c) + spec_escape_html(rest.drop_last()) + escape_char(rest.last()) =~= escape_char(c) + (
        spec_escape_html(rest.drop_last()) + escape_char(rest.last())));
    }
}

proof fn lemma_unescape_after(c: char, rest: Seq<char>)
    ensures
        spec_unescape_html(escape_char(c) + rest) == seq![c] + spec_unescape_html(rest),
{
    reveal_strlit("&amp;");
    reveal_strlit("&lt;");
    reveal_strlit("&gt;");
    reveal_strlit("&quot;");
    reveal_strlit("&#39;");
    let t = escape_char(c) + rest;
    let amp = seq!['&', 'a', 'm', 'p', ';'];
    let lt = seq!['&', 'l', 't', ';'];
    let gt = seq!['&', 'g', 't', ';'];
    let quot = seq!['&', 'q', 'u', 'o', 't', ';'];
    let apos = seq!['&', '#', '3', '9', ';'];
    if c == '&' {
        assert(amp.is_prefix_of(t));
        assert(t.skip(5) =~= rest);
    } else if c == '<' {
        assert(t[1] == 'l');
        assert(!amp.is_prefix_of(t));
        assert(lt.is_prefix_of(t));
        assert(t.skip(4) =~= rest);
    } else if c == '>' {
        assert(t[1] == 'g');
        assert(!amp.is_prefix_of(t));
        assert(!lt.is_prefix_of(t));
        assert(gt.is_prefix_of(t));
        assert(t.skip(4) =~= rest);
    } else if c == '"' {
        assert(t[1] == 'q');
        assert(!amp.is_prefix_of(t));
        assert(!lt.is_prefix_of(t));
        assert(!gt.is_prefix_of(t));
        assert(quot.is_prefix_of(t));
        assert(t.skip(6) =~= rest);
    } else if c == '\'' {
        assert(t[1] == '#');
        assert(!amp.is_prefix_of(t));
        assert(!lt.is_prefix_of(t));
        assert(!gt.is_prefix_of(t));
        assert(!quot.is_prefix_of(t));
        assert(apos.is_prefix_of(t));
        assert(t.skip(5) =~= rest);
    } else {
        assert(t[0] == c);
        assert(!amp.is_prefix_of(t));
        assert(!lt.is_prefix_of(t));
        assert(!gt.is_prefix_of(t));
        assert(!quot.is_prefix_of(t));
        assert(!apos.is_prefix_of(t));
        assert(t.skip(1) =~= rest);
    }
}

/// Escaping loses nothing: reading the escaped text back gives the original.
pub proof fn law_unescaping_restores_the_text(s: Seq<char>)
    ensures
        spec_unescape_html(spec_escape_html(s)) == s,
    decreases s.len(),
{
    if s.len() > 0 {
        let rest = s.skip(1);
        assert(s =~= seq![s[0]] + rest);
        lemma_escape_prepend(s[0], rest);
        lemma_unescape_after(s[0], spec_escape_html(rest));
        law_unescaping_restores_the_text(rest);
    }
}

/// The query of the provider's redirect back to the adapter.
#[derive(Clone, Debug)]
pub struct CallbackQuery {
    pub code: Option<String>,
    pub state: Option<String>,
    pub error: Option<String>,
    pub error_description: Option<String>,
}

pub struct CallbackQueryView {
    pub code: Option<Seq<char>>,
    pub state: Option<Seq<char>>,
    pub error: Option<Seq<char>>,
    pub error_description: Option<Seq<char>>,
}

impl View for CallbackQuery {
    type V = CallbackQueryView;

    open spec fn view(&self) -> CallbackQueryView {
        CallbackQueryView {
            code: option_view(self.code),
            state: option_view(self.state),
            error: option_view(self.error),
            error_description: option_view(self.error_description),
        }
    }
}

/// The message shown when the provider reports an error instead of a code.
pub open spec fn rejection_message(error: Seq<char>, description: Option<Seq<char>>) -> Seq<char> {
    "OIDC provider rejected login: "@ + error + " "@ + match description {
        Some(d) => d,
        None => Seq::<char>::empty(),
    }
}

/// The OIDC state and authorization code of a redirect: an error the provider
/// reports is shown; a redirect without state or code is refused.
pub open spec fn spec_callback_params(q: CallbackQueryView) -> Result<(Seq<char>, Seq<char>), WebErrorView> {
    match q.error {
        Some(e) => Err(bad_request_view(rejection_message(e, q.error_description))),
        None => match q.state {
            None => Err(authentication_failed_view()),
            Some(state) => match q.code {
                None => Err(authentication_failed_view()),
                Some(code) => Ok((state, code)),
            },
        },
    }
}

pub open spec fn pair_result_view(r: Result<(String, String), WebError>) -> Result<(Seq<char>, Seq<char>), WebErrorView> {
    match r {
        Ok((a, b)) => Ok((a@, b@)),
        Err(e) => Err(e@),
    }
}

impl CallbackQuery {
    /// The OIDC state and the authorization code this redirect carries, in that order.
    pub fn state_and_code(self) -> (result: Result<(String, String), WebError>)
        ensures
            pair_result_view(result) == spec_callback_params(self@),
    {
        if let Some(error) = self.error {
            let mut message = "OIDC provider rejected login: ".to_owned();
            message.append(error.as_str());
            message.append(" ");
            match self.error_description {
                Some(d) => message.append(d.as_str()),
                None => {},
            }
            proof {
                assert(message@ =~= rejection_message(error@, option_view(self.error_description)));
            }
            return Err(WebError::bad_request(message));
        }
        let state = match self.state {
            Some(s) => s,
            None => return Err(WebError::bad_request("authentication request failed".to_owned())),
        };
        let code = match self.code {
            Some(c) => c,
            None => return Err(WebError::bad_request("authentication request failed".to_owned())),
        };
        Ok((state, code))
    }
}

pub open spec fn web_session_result(r: Result<AuthSession, WebError>) -> Result<AuthSessionView, WebErrorView> {
    match r {
        Ok(s) => Ok(s@),
        Err(e) => Err(e@),
    }
}

/// The session a browser login may start from: one that exists, is fresh and
/// is still pending.
pub open spec fn spec_login_session(fetched: Result<AuthSessionView, StoreError>) -> Result<
    AuthSessionView,
    WebErrorView,
> {
    match fetched {
        Err(e) => Err(store_web_error(e)),
        Ok(s) => match s.state {
            SessionStateView::Pending { .. } => Ok(s),
            SessionStateView::Completed(_) => Err(bad_request_view("login session is already complete"@)),
        },
    }
}

/// Checks the session a browser login starts from, given the store's answer for its code.
pub fn login_session(fetched: Result<AuthSession, StoreError>) -> (result: Result<AuthSession, WebError>)
    ensures
        web_session_result(result) == spec_login_session(crate::store::session_result(fetched)),
{
    match fetched {
        Err(e) => Err(WebError::from(e)),
        Ok(session) => match session.state {
            SessionState::Pending { .. } => Ok(session),
            SessionState::Completed(_) => Err(WebError::bad_request("login session is already complete".to_owned())),
        },
    }
}

pub open spec fn attempt_result_view(r: Result<(String, OidcAttempt), WebError>) -> Result<
    (Seq<char>, OidcAttemptView),
    WebErrorView,
> {
    match r {
        Ok((code, a)) => Ok((code@, a@)),
        Err(e) => Err(e@),
    }
}

/// The session code and the OIDC attempt a redirect completes: the session
/// must be waiting on an attempt.
pub open spec fn spec_pending_attempt(found: Result<AuthSessionView, StoreError>) -> Result<
    (Seq<char>, OidcAttemptView),
    WebErrorView,
> {
    match found {
        Err(e) => Err(store_web_error(e)),
        Ok(s) => match s.state {
            SessionStateView::Pending { oidc: Some(a) } => Ok((s.code, a)),
            _ => Err(bad_request_view("OIDC login is not pending"@)),
        },
    }
}

/// The session code and the pending OIDC attempt of the session the store
/// found for a redirect's state.
pub fn pending_attempt(found: Result<AuthSession, StoreError>) -> (result: Result<(String, OidcAttempt), WebError>)
    ensures
        attempt_result_view(result) == spec_pending_attempt(crate::store::session_result(found)),
{
    match found {
        Err(e) => Err(WebError::from(e)),
        Ok(session) => match session.state {
            SessionState::Pending { oidc: Some(attempt) } => Ok((session.code, attempt)),
            _ => Err(WebError::bad_request("OIDC login is not pending".to_owned())),
        },
    }
}

/// A redirect carrying the state of a begun login finds that login: the
/// session's code and the attempt with its nonce and PKCE verifier, while the
/// session is fresh.
pub proof fn law_callback_finds_the_begun_attempt(
    v: crate::store::StoreView,
    code: Seq<char>,
    attempt: OidcAttemptView,
    now: u128,
    later: u128,
)
    requires
        crate::store::spec_begin_oidc(v, code, attempt, now).1 is Ok,
        v.sessions[code].code == code,
        later < v.sessions[code].expires_at,
    ensures
        spec_pending_attempt(
            crate::store::spec_session_for_oidc_state(
                crate::store::spec_begin_oidc(v, code, attempt, now).0,
                attempt.csrf_state,
                later,
            ),
        ) == Ok::<(Seq<char>, OidcAttemptView), WebErrorView>((code, attempt)),
{
    crate::store::law_attempt_state_finds_session(v, code, attempt, now, later);
}

/// `anyhow::Error`, carried through without looking inside.
#[verifier::external_type_specification]
#[verifier::external_body]
pub struct ExAnyhowError(anyhow::Error);

/// A browser login may start, or start again, from every pending session,
/// whether or not an earlier attempt at the provider was begun; it is refused
/// only for a completed session or a session the store refused, and then with
/// a bad request.
pub proof fn law_login_accepts_every_pending_session(fetched: Result<AuthSessionView, StoreError>)
    ensures
        (spec_login_session(fetched) is Ok) <==> (fetched is Ok && fetched->Ok_0.state is Pending),
        spec_login_session(fetched) is Ok ==> spec_login_session(fetched)->Ok_0 == fetched->Ok_0,
        spec_login_session(fetched) is Err ==> spec_login_session(fetched)->Err_0.status == BAD_REQUEST,
        fetched matches Err(e) ==> spec_login_session(fetched)->Err_0.message == store_error_message(e),
{
}

} // verus!
