//! What holds of a callback from its start to its end.

use vstd::prelude::*;

use crate::clock::Timestamp;
use crate::config::{ConfigModel, SESSION_KEY};
use crate::effects::{EffectModel, OutcomeModel, StepModel};
use crate::error::ErrorModel;
use crate::jar;
use crate::jar::JarModel;
use crate::outside;
use crate::reply::{BodyModel, ReplyModel};
use crate::router::handle_callback;
use crate::router::handle_callback::{
    CallbackModel, CallbackStageModel, CodeExchangeModel, TokenFlowModel,
};
use crate::session;
use crate::text;
use crate::token_request;

verus! {

/// A callback up to some effect: the effects that were asked for, the flow after
/// each, and the outcome of each but the last, with the time at which it came.
pub struct CallbackRun {
    pub effects: Seq<EffectModel>,
    pub flows: Seq<CallbackModel>,
    pub outcomes: Seq<OutcomeModel>,
    pub times: Seq<Timestamp>,
}

/// The outcome of an effect answers it and leads to the next effect.
pub open spec fn goes_on(config: ConfigModel, run: CallbackRun, i: int) -> bool {
    &&& run.effects[i].is_answered_by(run.outcomes[i])
    &&& handle_callback::callback_step(config, run.times[i], run.flows[i], run.outcomes[i])
        == StepModel::<CallbackModel, Result<ReplyModel, ErrorModel>>::Perform(
        run.effects[i + 1],
        run.flows[i + 1],
    )
}

/// A callback with that query, which is to open the session `id`, can go this way.
pub open spec fn is_run(
    config: ConfigModel,
    jar: JarModel,
    id: Seq<char>,
    query: CodeExchangeModel,
    run: CallbackRun,
) -> bool {
    &&& run.effects.len() == run.flows.len() == run.outcomes.len() + 1
    &&& run.times.len() == run.outcomes.len()
    &&& handle_callback::callback_begin(jar, id, Some(Ok(query))) == StepModel::<
        CallbackModel,
        Result<ReplyModel, ErrorModel>,
    >::Perform(run.effects[0], run.flows[0])
    &&& forall|i: int| 0 <= i < run.outcomes.len() ==> #[trigger] goes_on(config, run, i)
}

/// The way that every callback goes: the verifier is looked up and dropped, the
/// code is exchanged, the answer read and the session stored.
proof fn run_is_a_prefix_of_the_way(
    config: ConfigModel,
    jar: JarModel,
    id: Seq<char>,
    query: CodeExchangeModel,
    run: CallbackRun,
)
    requires
        is_run(config, jar, id, query, run),
    ensures
        run.effects.len() <= 5,
        forall|i: int|
            0 <= i < run.flows.len() ==> (#[trigger] run.flows[i]).jar == jar && run.flows[i].id
                == id,
        ({
            let (state, redirect) = text::split_at_bar(query.state);
            let n = run.effects.len();
            let verifier = run.outcomes[0]->CodeVerifier_0->Ok_0->0;
            let tokens = run.outcomes[3]->AccessTokens_0->Ok_0;
            &&& run.effects[0] == EffectModel::GetCodeVerifier(state)
            &&& n > 1 ==> {
                &&& run.outcomes[0] == OutcomeModel::CodeVerifier(Ok(Some(verifier)))
                &&& run.effects[1] == EffectModel::InvalidateCodeVerifier(state)
            }
            &&& n > 2 ==> {
                &&& run.outcomes[1] is Done && run.outcomes[1]->Done_0 is Ok
                &&& run.effects[2] is PostForm
                &&& token_request::token_request(
                    config,
                    token_request::exchange_form(config, query.code, verifier),
                    outside::parsed_url(config.token_endpoint),
                ) == Ok::<_, ErrorModel>(run.effects[2]->PostForm_0)
            }
            &&& n > 3 ==> {
                &&& run.effects[3] is ReadAccessTokens || run.effects[3] is ReadText
                &&& run.effects[3] is ReadAccessTokens <==> run.outcomes[2]
                    == OutcomeModel::Status(Ok(200))
                &&& run.flows[3].stage is Tokens
            }
            &&& n > 4 ==> {
                &&& run.effects[3] is ReadAccessTokens
                &&& run.outcomes[3] == OutcomeModel::AccessTokens(Ok(tokens))
                &&& run.effects[4] == EffectModel::SetAuthSession(
                    id,
                    session::opened_session(run.times[3], tokens, config.token_max_age_seconds),
                )
                &&& run.flows[4].stage == (CallbackStageModel::Storing { redirect })
            }
            &&& forall|i: int| 0 <= i < n && i < 4 ==> (#[trigger] run.flows[i]).stage is Tokens
        }),
{
    let (state, redirect) = text::split_at_bar(query.state);
    let n = run.effects.len();
    assert(run.flows[0].stage == CallbackStageModel::Tokens(
        TokenFlowModel::Verifier { state, code: query.code, redirect },
    ));
    if n > 1 {
        assert(goes_on(config, run, 0));
        let verifier = run.outcomes[0]->CodeVerifier_0->Ok_0->0;
        assert(run.flows[1].stage == CallbackStageModel::Tokens(
            TokenFlowModel::Spending { code: query.code, verifier, redirect },
        ));
    }
    if n > 2 {
        assert(goes_on(config, run, 1));
        assert(run.flows[2].stage == CallbackStageModel::Tokens(
            TokenFlowModel::Exchange { redirect },
        ));
    }
    if n > 3 {
        assert(goes_on(config, run, 2));
    }
    if n > 4 {
        assert(goes_on(config, run, 3));
    }
    if n > 5 {
        assert(goes_on(config, run, 4));
    }
}

/// A callback ends: after at most five effects there is a response or an error.
pub proof fn callback_ends(
    config: ConfigModel,
    jar: JarModel,
    id: Seq<char>,
    query: CodeExchangeModel,
    run: CallbackRun,
)
    requires
        is_run(config, jar, id, query, run),
    ensures
        run.effects.len() <= 5,
{
    run_is_a_prefix_of_the_way(config, jar, id, query, run);
}

/// A code verifier serves once: it is sent to the provider only after it has been
/// found under the state that came back and then dropped from the cache, and it is
/// sent one time.
pub proof fn verifier_serves_once(
    config: ConfigModel,
    jar: JarModel,
    id: Seq<char>,
    query: CodeExchangeModel,
    run: CallbackRun,
    i: int,
)
    requires
        is_run(config, jar, id, query, run),
        0 <= i < run.effects.len(),
        run.effects[i] is PostForm,
    ensures
        i == 2,
        ({
            let state = text::split_at_bar(query.state).0;
            let request = run.effects[2]->PostForm_0;
            &&& run.effects[0] == EffectModel::GetCodeVerifier(state)
            &&& run.outcomes[0] matches OutcomeModel::CodeVerifier(Ok(Some(verifier)))
            &&& run.effects[1] == EffectModel::InvalidateCodeVerifier(state)
            &&& run.outcomes[1] is Done
            &&& run.outcomes[1]->Done_0 is Ok
            &&& request.form == token_request::exchange_form(config, query.code, verifier)
            &&& Some(request.url) == outside::parsed_url(config.token_endpoint)
        }),
{
    run_is_a_prefix_of_the_way(config, jar, id, query, run);
    if i == 0 || i == 1 || i == 3 || i == 4 {
        assert(false);
    }
}

/// A session is stored only with tokens that the provider gave under the status
/// 200, and under the identifier of this callback.
pub proof fn session_is_stored_with_granted_tokens(
    config: ConfigModel,
    jar: JarModel,
    id: Seq<char>,
    query: CodeExchangeModel,
    run: CallbackRun,
    i: int,
)
    requires
        is_run(config, jar, id, query, run),
        0 <= i < run.effects.len(),
        run.effects[i] is SetAuthSession,
    ensures
        i == 4,
        run.outcomes[2] == OutcomeModel::Status(Ok(200)),
        run.outcomes[3] matches OutcomeModel::AccessTokens(Ok(tokens)) && run.effects[4]
            == EffectModel::SetAuthSession(
            id,
            session::opened_session(run.times[3], tokens, config.token_max_age_seconds),
        ),
{
    run_is_a_prefix_of_the_way(config, jar, id, query, run);
    if i == 0 || i == 1 || i == 2 || i == 3 {
        assert(false);
    }
}

/// A login succeeds only once the session is stored, and then the response sets
/// the session's identifier in the cookie and sends the browser to the path that
/// the state names, if it is local.
pub proof fn login_succeeds_with_a_stored_session(
    config: ConfigModel,
    jar: JarModel,
    id: Seq<char>,
    query: CodeExchangeModel,
    run: CallbackRun,
    outcome: OutcomeModel,
    now: Timestamp,
    reply: ReplyModel,
)
    requires
        is_run(config, jar, id, query, run),
        run.effects.last().is_answered_by(outcome),
        handle_callback::callback_step(config, now, run.flows.last(), outcome) == StepModel::<
            CallbackModel,
            Result<ReplyModel, ErrorModel>,
        >::Finish(Ok(reply)),
    ensures
        run.effects.last() matches EffectModel::SetAuthSession(stored, _) && stored == id,
        outcome->Done_0 is Ok,
        jar::session_id(reply.jar) == Some(id),
        reply.body == BodyModel::Html(
            handle_callback::login_page(text::split_at_bar(query.state).1),
        ),
{
    run_is_a_prefix_of_the_way(config, jar, id, query, run);
    let n = run.effects.len();
    assert(run.flows.last() == run.flows[n - 1]);
    if n < 5 {
        assert(run.flows[n - 1].stage is Tokens);
        assert(false);
    }
    assert(jar.with(jar::renewed_cookie(config, id)).value(SESSION_KEY@) == Some(id));
}

/// The flow takes every outcome of the effect that it hands out, but for tokens
/// whose lifetime is too long.
pub proof fn callback_flow_takes_each_outcome(
    config: ConfigModel,
    now: Timestamp,
    jar: JarModel,
    id: Seq<char>,
    query: Option<Result<CodeExchangeModel, Seq<char>>>,
    flow: CallbackModel,
    outcome: OutcomeModel,
    answer: OutcomeModel,
)
    requires
        flow.accepts(config, outcome),
        config.is_session_age_bounded(),
        answer matches OutcomeModel::AccessTokens(Ok(tokens))
            ==> crate::clock::is_lifetime_bounded(
            tokens.expires_in,
            config.token_max_age_seconds,
        ),
    ensures
        handle_callback::callback_begin(jar, id, query) matches StepModel::Perform(effect, next)
            ==> effect.is_answered_by(answer) ==> next.accepts(config, answer),
        handle_callback::callback_step(config, now, flow, outcome) matches StepModel::Perform(
            effect,
            next,
        ) ==> effect.is_answered_by(answer) ==> next.accepts(config, answer),
{
}

/// What the page that ends a login sends the browser to is a path on this host,
/// escaped, and holds nothing that could end the attribute it stands in.
pub proof fn login_target_is_local_and_inert(redirect: Option<Seq<char>>, at: int)
    requires
        0 <= at < handle_callback::login_target(redirect).len(),
    ensures
        !outside::is_markup(handle_callback::login_target(redirect)[at]),
        handle_callback::login_target(redirect) == "/"@ || exists|path: Seq<char>| #[trigger]
            text::is_local_path(path) && redirect == Some(path)
                && handle_callback::login_target(redirect) == outside::html_escaped(path),
{
    reveal_strlit("/");
    if let Some(path) = redirect {
        if text::is_local_path(path) {
            outside::escaped_text_holds_no_markup(path, at);
        }
    }
}

} // verus!
