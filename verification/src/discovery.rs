//! Fills a builder from a provider's discovery document.

use vstd::prelude::*;

use crate::builder;
use crate::builder::{BuilderModel, OAuthConfigurationBuilder, Scopes};
use crate::config::CodeChallengeMethod;
use crate::effects;
use crate::effects::{
    DiscoveryModel, Effect, EffectModel, OidcDiscovery, Outcome, OutcomeModel, Step, StepModel,
};
use crate::error::{Error, ErrorModel};
use crate::outside;
use crate::outside::{display_status, parse_url};
use crate::text;
use crate::text::{
    copy_optional, list_contains, same_text_ignoring_ascii_case, trim_trailing_slashes,
};

verus! {

/// The discovery of a provider's endpoints.
#[derive(Debug)]
pub struct IssuerFlow {
    /// The builder to fill.
    pub builder: OAuthConfigurationBuilder,
    /// The issuer, without the slashes at its end.
    pub issuer: String,
    /// The URL of the discovery document.
    pub url: String,
    pub stage: IssuerStage,
}

/// Where the discovery has got to.
#[derive(Debug, Clone, Copy, PartialEq, Eq, Structural)]
pub enum IssuerStage {
    /// The HTTP client is built.
    Client,
    /// The document is fetched.
    Fetch,
    /// The document is read.
    Reading,
    /// The provider's refusal is read.
    Refused { status: u16 },
}

/// The mathematical counterpart of [`IssuerFlow`].
pub struct IssuerModel {
    pub builder: BuilderModel,
    pub issuer: Seq<char>,
    pub url: Seq<char>,
    pub stage: IssuerStage,
}

impl View for IssuerFlow {
    type V = IssuerModel;

    open spec fn view(&self) -> IssuerModel {
        IssuerModel {
            builder: self.builder@,
            issuer: self.issuer@,
            url: self.url@,
            stage: self.stage,
        }
    }
}

impl IssuerModel {
    /// A refusal has a status of three digits.
    pub open spec fn is_valid(self) -> bool {
        self.stage matches IssuerStage::Refused { status } ==> 100 <= status <= 999
    }

    /// The outcome is one of the effect that the flow waits for.
    pub open spec fn accepts(self, outcome: OutcomeModel) -> bool {
        match self.stage {
            IssuerStage::Client => outcome is Done,
            IssuerStage::Fetch => {
                &&& outcome is Status
                &&& outcome matches OutcomeModel::Status(Ok(status)) ==> 100 <= status <= 999
            },
            IssuerStage::Reading => outcome is Discovery,
            IssuerStage::Refused { .. } => outcome is Text,
        }
    }
}

/// The URL of an issuer's discovery document.
pub open spec fn discovery_url(issuer: Seq<char>) -> Seq<char> {
    text::without_trailing_slashes(issuer) + "/.well-known/openid-configuration"@
}

/// The default scopes that a provider supports.
pub open spec fn supported_defaults(supported: Seq<Seq<char>>) -> Seq<Seq<char>> {
    builder::default_scopes().filter(|scope: Seq<char>| supported.contains(scope))
}

/// The scopes after discovery: the ones set by the caller, else the default scopes
/// that are on the provider's list, else, where there is no list, what they were.
pub open spec fn discovered_scopes(
    builder: BuilderModel,
    supported: Option<Seq<Seq<char>>>,
) -> Seq<Seq<char>> {
    match supported {
        Some(supported) => if builder.scopes_explicit {
            builder.scopes
        } else {
            supported_defaults(supported)
        },
        None => builder.scopes,
    }
}

/// One of the methods is `S256`, in any case.
pub open spec fn supports_s256(methods: Seq<Seq<char>>) -> bool {
    exists|i: int|
        0 <= i < methods.len() && #[trigger] text::same_ignoring_ascii_case(methods[i], "S256"@)
}

/// The PKCE method after discovery: the one set by the caller, else `S256` where
/// the provider lists it and `plain` where it lists only others, else what it was.
pub open spec fn discovered_method(
    builder: BuilderModel,
    methods: Option<Seq<Seq<char>>>,
) -> CodeChallengeMethod {
    match methods {
        Some(methods) => if builder.code_challenge_method_explicit {
            builder.code_challenge_method
        } else if supports_s256(methods) {
            CodeChallengeMethod::S256
        } else {
            CodeChallengeMethod::Plain
        },
        None => builder.code_challenge_method,
    }
}

/// The builder after discovery.
pub open spec fn discovered(builder: BuilderModel, document: DiscoveryModel) -> BuilderModel {
    BuilderModel {
        authorization_endpoint: match builder.authorization_endpoint {
            Some(endpoint) => Some(endpoint),
            None => Some(document.authorization_endpoint),
        },
        token_endpoint: match builder.token_endpoint {
            Some(endpoint) => Some(endpoint),
            None => Some(document.token_endpoint),
        },
        end_session_endpoint: match builder.end_session_endpoint {
            Some(endpoint) => Some(endpoint),
            None => document.end_session_endpoint,
        },
        scopes: discovered_scopes(builder, document.scopes_supported),
        code_challenge_method: discovered_method(
            builder,
            document.code_challenge_methods_supported,
        ),
        ..builder
    }
}

/// What is said of a provider that refuses the document.
pub open spec fn refusal(url: Seq<char>, status_line: Seq<char>, body: Seq<char>) -> Seq<char> {
    "OIDC discovery request to "@ + url + " returned HTTP "@ + status_line + ": "@ + body
}

/// What is said of a document that cannot be read.
pub open spec fn unreadable(url: Seq<char>, why: Seq<char>) -> Seq<char> {
    "Failed to parse OIDC discovery document from "@ + url + ": "@ + why
}

/// How the discovery starts: the HTTP client is built.
pub open spec fn issuer_begin(builder: BuilderModel, issuer: Seq<char>) -> StepModel<
    IssuerModel,
    Result<BuilderModel, ErrorModel>,
> {
    StepModel::Perform(
        EffectModel::BuildClient(builder.custom_ca_cert),
        IssuerModel {
            builder,
            issuer: text::without_trailing_slashes(issuer),
            url: discovery_url(issuer),
            stage: IssuerStage::Client,
        },
    )
}

/// How the discovery goes on once there is a client: where the issuer and the
/// document's address are URLs, as their parsed forms tell, the document is
/// fetched; else the one that is none is named.
pub open spec fn fetch_document(
    flow: IssuerModel,
    parsed_issuer: Option<Seq<char>>,
    parsed_url: Option<Seq<char>>,
) -> StepModel<IssuerModel, Result<BuilderModel, ErrorModel>> {
    if parsed_issuer is None {
        StepModel::Finish(Err(ErrorModel::NotValidUri(flow.issuer)))
    } else if parsed_url is None {
        StepModel::Finish(Err(ErrorModel::NotValidUri(flow.url)))
    } else {
        StepModel::Perform(
            EffectModel::Fetch(flow.url),
            IssuerModel { stage: IssuerStage::Fetch, ..flow },
        )
    }
}

/// How the discovery goes on.
pub open spec fn issuer_step(flow: IssuerModel, outcome: OutcomeModel) -> StepModel<
    IssuerModel,
    Result<BuilderModel, ErrorModel>,
> {
    match (flow.stage, outcome) {
        (IssuerStage::Client, OutcomeModel::Done(done)) => match done {
            Ok(()) => fetch_document(
                flow,
                outside::parsed_url(flow.issuer),
                outside::parsed_url(flow.url),
            ),
            Err(error) => StepModel::Finish(Err(error)),
        },
        (IssuerStage::Fetch, OutcomeModel::Status(answer)) => match answer {
            Ok(status) => if 200 <= status < 300 {
                StepModel::Perform(
                    EffectModel::ReadDiscovery,
                    IssuerModel { stage: IssuerStage::Reading, ..flow },
                )
            } else {
                StepModel::Perform(
                    EffectModel::ReadText,
                    IssuerModel { stage: IssuerStage::Refused { status }, ..flow },
                )
            },
            Err(error) => StepModel::Finish(Err(error)),
        },
        (IssuerStage::Reading, OutcomeModel::Discovery(read)) => match read {
            Ok(document) => StepModel::Finish(Ok(discovered(flow.builder, document))),
            Err(why) => StepModel::Finish(
                Err(ErrorModel::InvalidResponse(unreadable(flow.url, why))),
            ),
        },
        (IssuerStage::Refused { status }, OutcomeModel::Text(read)) => StepModel::Finish(
            Err(
                ErrorModel::InvalidResponse(
                    refusal(
                        flow.url,
                        outside::status_line(status),
                        match read {
                            Ok(body) => body,
                            Err(_) => Seq::empty(),
                        },
                    ),
                ),
            ),
        ),
        _ => arbitrary(),
    }
}

/// The scopes of the defaults that a provider supports.
fn keep_supported(supported: &Vec<String>) -> (kept: Vec<String>)
    ensures
        text::texts(kept@) == supported_defaults(text::texts(supported@)),
{
    let ghost listed = text::texts(supported@);
    let ghost is_listed = |scope: Seq<char>| listed.contains(scope);
    let mut kept: Vec<String> = Vec::new();
    assert(text::texts(kept@) =~= Seq::empty());
    if list_contains(supported, "openid") {
        kept.push("openid".to_owned());
    }
    if list_contains(supported, "email") {
        kept.push("email".to_owned());
    }
    if list_contains(supported, "profile") {
        kept.push("profile".to_owned());
    }
    proof {
        let all = builder::default_scopes();
        reveal_with_fuel(Seq::filter, 4);
        assert(all.drop_last() =~= seq!["openid"@, "email"@]);
        assert(all.drop_last().drop_last() =~= seq!["openid"@]);
        assert(all.drop_last().drop_last().drop_last() =~= Seq::empty());
        assert(text::texts(kept@) =~= all.filter(is_listed));
    }
    kept
}

/// Tests whether one of the methods is `S256`, in any case.
fn lists_s256(methods: &Vec<String>) -> (listed: bool)
    ensures
        listed == supports_s256(text::texts(methods@)),
{
    let ghost names = text::texts(methods@);
    for i in 0..methods.len()
        invariant
            names == text::texts(methods@),
            forall|j: int|
                0 <= j < i ==> !#[trigger] text::same_ignoring_ascii_case(names[j], "S256"@),
    {
        assert(names[i as int] == methods@[i as int]@);
        if same_text_ignoring_ascii_case(methods[i].as_str(), "S256") {
            return true;
        }
    }
    false
}

impl OAuthConfigurationBuilder {
    /// Fills what has not been set from a discovery document.
    pub fn discover(self, document: OidcDiscovery) -> (builder: OAuthConfigurationBuilder)
        ensures
            builder@ == discovered(self@, document@),
    {
        let authorization_endpoint = match self.authorization_endpoint {
            Some(endpoint) => Some(endpoint),
            None => Some(document.authorization_endpoint),
        };
        let token_endpoint = match self.token_endpoint {
            Some(endpoint) => Some(endpoint),
            None => Some(document.token_endpoint),
        };
        let end_session_endpoint = match self.end_session_endpoint {
            Some(endpoint) => Some(endpoint),
            None => document.end_session_endpoint,
        };
        let scopes = match &document.scopes_supported {
            Some(supported) => if self.scopes_explicit {
                self.scopes
            } else {
                Scopes::of(keep_supported(supported))
            },
            None => self.scopes,
        };
        let code_challenge_method = match &document.code_challenge_methods_supported {
            Some(methods) => if self.code_challenge_method_explicit {
                self.code_challenge_method
            } else if lists_s256(methods) {
                CodeChallengeMethod::S256
            } else {
                CodeChallengeMethod::Plain
            },
            None => self.code_challenge_method,
        };
        OAuthConfigurationBuilder {
            authorization_endpoint,
            token_endpoint,
            end_session_endpoint,
            scopes,
            code_challenge_method,
            ..self
        }
    }

    /// Starts the discovery of an issuer's endpoints, scopes and PKCE methods.
    pub fn with_issuer(self, issuer: &str) -> (step: Step<
        IssuerFlow,
        Result<OAuthConfigurationBuilder, Error>,
    >)
        ensures
            effects::step_model(step) == issuer_begin(self@, issuer@),
            step matches Step::Perform(_, flow) ==> flow@.is_valid(),
    {
        let issuer = trim_trailing_slashes(issuer);
        let mut url = issuer.clone();
        url.append("/.well-known/openid-configuration");
        let certificate = copy_optional(&self.custom_ca_cert);
        Step::Perform(
            Effect::BuildClient(certificate),
            IssuerFlow { builder: self, issuer, url, stage: IssuerStage::Client },
        )
    }
}

/// Says that a provider refuses the document.
pub fn describe_refusal(url: &str, status_line: &str, body: &str) -> (message: String)
    ensures
        message@ == refusal(url@, status_line@, body@),
{
    let mut message = "OIDC discovery request to ".to_owned();
    message.append(url);
    message.append(" returned HTTP ");
    message.append(status_line);
    message.append(": ");
    message.append(body);
    message
}

/// Says that a document cannot be read.
pub fn describe_unreadable(url: &str, why: &str) -> (message: String)
    ensures
        message@ == unreadable(url@, why@),
{
    let mut message = "Failed to parse OIDC discovery document from ".to_owned();
    message.append(url);
    message.append(": ");
    message.append(why);
    message
}

impl IssuerFlow {
    /// Goes on once there is a client, with the issuer and the document's address
    /// as they were parsed.
    pub fn fetch(self, parsed_issuer: Option<String>, parsed_url: Option<String>) -> (step: Step<
        IssuerFlow,
        Result<OAuthConfigurationBuilder, Error>,
    >)
        ensures
            effects::step_model(step) == fetch_document(
                self@,
                text::optional_text(parsed_issuer),
                text::optional_text(parsed_url),
            ),
            step matches Step::Perform(_, flow) ==> flow@.is_valid(),
    {
        if parsed_issuer.is_none() {
            Step::Finish(Err(Error::NotValidUri(self.issuer)))
        } else if parsed_url.is_none() {
            Step::Finish(Err(Error::NotValidUri(self.url)))
        } else {
            Step::Perform(
                Effect::Fetch(self.url.clone()),
                IssuerFlow { stage: IssuerStage::Fetch, ..self },
            )
        }
    }

    /// Goes on with the outcome of the effect that was asked for.
    pub fn step(self, outcome: Outcome) -> (step: Step<
        IssuerFlow,
        Result<OAuthConfigurationBuilder, Error>,
    >)
        requires
            self@.is_valid(),
            self@.accepts(outcome@),
        ensures
            effects::step_model(step) == issuer_step(self@, outcome@),
            step matches Step::Perform(_, flow) ==> flow@.is_valid(),
    {
        match (self.stage, outcome) {
            (IssuerStage::Client, Outcome::Done(done)) => match done {
                Ok(()) => {
                    let parsed_issuer = parse_url(self.issuer.as_str());
                    let parsed_url = parse_url(self.url.as_str());
                    self.fetch(parsed_issuer, parsed_url)
                },
                Err(error) => Step::Finish(Err(error)),
            },
            (IssuerStage::Fetch, Outcome::Status(answer)) => match answer {
                Ok(status) => if 200 <= status && status < 300 {
                    Step::Perform(
                        Effect::ReadDiscovery,
                        IssuerFlow { stage: IssuerStage::Reading, ..self },
                    )
                } else {
                    Step::Perform(
                        Effect::ReadText,
                        IssuerFlow { stage: IssuerStage::Refused { status }, ..self },
                    )
                },
                Err(error) => Step::Finish(Err(error)),
            },
            (IssuerStage::Reading, Outcome::Discovery(read)) => match read {
                Ok(document) => Step::Finish(Ok(self.builder.discover(document))),
                Err(why) => Step::Finish(
                    Err(
                        Error::InvalidResponse(
                            describe_unreadable(self.url.as_str(), why.as_str()),
                        ),
                    ),
                ),
            },
            (IssuerStage::Refused { status }, Outcome::Text(read)) => {
                let body = match read {
                    Ok(body) => body,
                    Err(_) => String::new(),
                };
                let line = display_status(status);
                Step::Finish(
                    Err(
                        Error::InvalidResponse(
                            describe_refusal(self.url.as_str(), line.as_str(), body.as_str()),
                        ),
                    ),
                )
            },
            _ => unreached(),
        }
    }
}

/// What the caller has set survives discovery: the endpoints, the scopes and the
/// method, and everything that a discovery document does not speak of.
pub proof fn settings_survive_discovery(builder: BuilderModel, document: DiscoveryModel)
    ensures
        ({
            let after = discovered(builder, document);
            &&& builder.authorization_endpoint is Some ==> after.authorization_endpoint
                == builder.authorization_endpoint
            &&& builder.token_endpoint is Some ==> after.token_endpoint == builder.token_endpoint
            &&& builder.end_session_endpoint is Some ==> after.end_session_endpoint
                == builder.end_session_endpoint
            &&& builder.scopes_explicit ==> after.scopes == builder.scopes
            &&& builder.code_challenge_method_explicit ==> after.code_challenge_method
                == builder.code_challenge_method
            &&& after == (BuilderModel {
                authorization_endpoint: after.authorization_endpoint,
                token_endpoint: after.token_endpoint,
                end_session_endpoint: after.end_session_endpoint,
                scopes: after.scopes,
                code_challenge_method: after.code_challenge_method,
                ..builder
            })
        }),
{
}

/// It makes no difference whether an endpoint is set before discovery or after
/// it.
pub proof fn endpoints_are_set_before_or_after(
    builder: BuilderModel,
    document: DiscoveryModel,
    endpoint: Seq<char>,
)
    ensures
        discovered(
            BuilderModel { authorization_endpoint: Some(endpoint), ..builder },
            document,
        ) == (BuilderModel {
            authorization_endpoint: Some(endpoint),
            ..discovered(builder, document)
        }),
        discovered(BuilderModel { token_endpoint: Some(endpoint), ..builder }, document) == (
        BuilderModel { token_endpoint: Some(endpoint), ..discovered(builder, document) }),
        discovered(BuilderModel { end_session_endpoint: Some(endpoint), ..builder }, document) == (
        BuilderModel { end_session_endpoint: Some(endpoint), ..discovered(builder, document) }),
{
}

/// It makes no difference whether the scopes or the method are set before
/// discovery or after it.
pub proof fn choices_are_set_before_or_after(
    builder: BuilderModel,
    document: DiscoveryModel,
    scopes: Seq<Seq<char>>,
    method: CodeChallengeMethod,
)
    ensures
        discovered(BuilderModel { scopes, scopes_explicit: true, ..builder }, document) == (
        BuilderModel { scopes, scopes_explicit: true, ..discovered(builder, document) }),
        discovered(
            BuilderModel {
                code_challenge_method: method,
                code_challenge_method_explicit: true,
                ..builder
            },
            document,
        ) == (BuilderModel {
            code_challenge_method: method,
            code_challenge_method_explicit: true,
            ..discovered(builder, document)
        }),
{
}

/// After discovery both endpoints that a configuration needs are set.
pub proof fn discovery_sets_the_endpoints(builder: BuilderModel, document: DiscoveryModel)
    ensures
        discovered(builder, document).authorization_endpoint is Some,
        discovered(builder, document).token_endpoint is Some,
{
}

/// Where the caller sets no scopes and the provider lists those that it supports,
/// the default scopes on the list are requested and no others.
pub proof fn discovered_scopes_are_supported(builder: BuilderModel, supported: Seq<Seq<char>>)
    requires
        !builder.scopes_explicit,
    ensures
        forall|scope: Seq<char>| #[trigger]
            discovered_scopes(builder, Some(supported)).contains(scope)
                <==> builder::default_scopes().contains(scope) && supported.contains(scope),
{
    let all = builder::default_scopes();
    let is_listed = |scope: Seq<char>| supported.contains(scope);
    let kept = all.filter(is_listed);
    assert forall|scope: Seq<char>| #[trigger]
        discovered_scopes(builder, Some(supported)).contains(scope) <==> all.contains(scope)
            && supported.contains(scope) by {
        if kept.contains(scope) {
            let i = choose|i: int| 0 <= i < kept.len() && kept[i] == scope;
            all.lemma_filter_pred(is_listed, i);
            all.lemma_filter_contains_rev(is_listed, scope);
        }
        if all.contains(scope) && supported.contains(scope) {
            let i = choose|i: int| 0 <= i < all.len() && all[i] == scope;
            all.lemma_filter_contains(is_listed, i);
        }
    }
}

/// A slash at the end of an issuer makes no difference.
pub proof fn trailing_slash_is_ignored(builder: BuilderModel, issuer: Seq<char>)
    ensures
        discovery_url(issuer.push('/')) == discovery_url(issuer),
        issuer_begin(builder, issuer.push('/')) == issuer_begin(builder, issuer),
{
    text::trimming_is_final(issuer);
}

/// Nothing is fetched for an issuer that is no URL.
pub proof fn document_of_a_url_is_fetched(flow: IssuerModel, outcome: OutcomeModel)
    requires
        flow.accepts(outcome),
    ensures
        issuer_step(flow, outcome) matches StepModel::Perform(EffectModel::Fetch(url), _) ==> {
            &&& url == flow.url
            &&& outside::parsed_url(flow.issuer) is Some
            &&& outside::parsed_url(flow.url) is Some
        },
{
}

/// The flow takes every outcome of the effect that it hands out.
pub proof fn issuer_flow_takes_each_outcome(
    builder: BuilderModel,
    issuer: Seq<char>,
    flow: IssuerModel,
    outcome: OutcomeModel,
    answer: OutcomeModel,
)
    requires
        flow.accepts(outcome),
    ensures
        issuer_begin(builder, issuer) matches StepModel::Perform(effect, next) ==>
            effect.is_answered_by(answer) ==> next.accepts(answer),
        issuer_step(flow, outcome) matches StepModel::Perform(effect, next) ==>
            effect.is_answered_by(answer) ==> next.accepts(answer),
{
}

impl IssuerModel {
    /// How many effects the flow can still ask for, the present one counted.
    pub open spec fn effects_left(self) -> nat {
        match self.stage {
            IssuerStage::Client => 3,
            IssuerStage::Fetch => 2,
            _ => 1,
        }
    }
}

/// Discovery ends: each outcome brings its end nearer.
pub proof fn discovery_ends(flow: IssuerModel, outcome: OutcomeModel)
    requires
        flow.accepts(outcome),
    ensures
        issuer_step(flow, outcome) matches StepModel::Perform(_, next) ==> next.effects_left()
            < flow.effects_left(),
{
}

} // verus!
