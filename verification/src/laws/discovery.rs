//! Laws of the discovery of a provider.

use vstd::prelude::*;

use crate::builder::BuilderModel;
use crate::config::CodeChallengeMethod;
use crate::discovery;
use crate::discovery::IssuerModel;
use crate::effects::{DiscoveryModel, EffectModel, OutcomeModel, StepModel};
use crate::error::ErrorModel;
use crate::laws::callback;
use crate::outside;
use crate::text;

verus! {

/// The text is `S256`, its letter in either case.
pub open spec fn is_s256(name: Seq<char>) -> bool {
    &&& name.len() == 4
    &&& name[0] == 'S' || name[0] == 's'
    &&& name[1] == '2'
    &&& name[2] == '5'
    &&& name[3] == '6'
}

/// The comparison in any case finds the texts that are `S256`, and no others.
proof fn s256_is_found(name: Seq<char>)
    ensures
        text::same_ignoring_ascii_case(name, "S256"@) <==> is_s256(name),
{
    reveal_strlit("S256");
    crate::laws::text::same_but_for_case_letter_by_letter(name, "S256"@);
    let wanted = "S256"@;
    if text::same_ignoring_ascii_case(name, wanted) {
        assert(crate::laws::text::is_same_letter(name[0], wanted[0]));
        assert(crate::laws::text::is_same_letter(name[1], wanted[1]));
        assert(crate::laws::text::is_same_letter(name[2], wanted[2]));
        assert(crate::laws::text::is_same_letter(name[3], wanted[3]));
    }
}

/// Hashed challenges are chosen wherever the provider lists them, at any place of
/// the list and whatever else it lists.
pub proof fn s256_is_chosen_wherever_it_is_listed(
    builder: BuilderModel,
    document: DiscoveryModel,
    methods: Seq<Seq<char>>,
    at: int,
)
    requires
        !builder.code_challenge_method_explicit,
        document.code_challenge_methods_supported == Some(methods),
        0 <= at < methods.len(),
        is_s256(methods[at]),
    ensures
        discovery::discovered(builder, document).code_challenge_method == CodeChallengeMethod::S256,
{
    s256_is_found(methods[at]);
}

/// Plain challenges are chosen only where no place of the provider's list holds
/// the hashed ones.
pub proof fn plain_is_chosen_only_without_s256(
    builder: BuilderModel,
    document: DiscoveryModel,
    methods: Seq<Seq<char>>,
)
    requires
        !builder.code_challenge_method_explicit,
        document.code_challenge_methods_supported == Some(methods),
    ensures
        discovery::discovered(builder, document).code_challenge_method == CodeChallengeMethod::Plain
            <==> forall|i: int| 0 <= i < methods.len() ==> !is_s256(#[trigger] methods[i]),
{
    if discovery::supports_s256(methods) {
        let i = choose|i: int|
            0 <= i < methods.len() && #[trigger] text::same_ignoring_ascii_case(
                methods[i],
                "S256"@,
            );
        s256_is_found(methods[i]);
        assert(is_s256(methods[i]));
    } else {
        assert forall|i: int| 0 <= i < methods.len() implies !is_s256(#[trigger] methods[i]) by {
            s256_is_found(methods[i]);
        }
    }
}

/// The method stays as it was where the caller has set it, and where the provider
/// has no list.
pub proof fn method_stays_where_nothing_decides(builder: BuilderModel, document: DiscoveryModel)
    requires
        builder.code_challenge_method_explicit || document.code_challenge_methods_supported is None,
    ensures
        discovery::discovered(builder, document).code_challenge_method
            == builder.code_challenge_method,
{
}

/// What is discovered does not depend on the order of the provider's lists, nor on
/// how often they repeat an entry.
pub proof fn order_of_the_lists_is_nothing(
    builder: BuilderModel,
    document: DiscoveryModel,
    other: DiscoveryModel,
    methods: Seq<Seq<char>>,
    other_methods: Seq<Seq<char>>,
    scopes: Seq<Seq<char>>,
    other_scopes: Seq<Seq<char>>,
)
    requires
        document.code_challenge_methods_supported == Some(methods),
        other.code_challenge_methods_supported == Some(other_methods),
        document.scopes_supported == Some(scopes),
        other.scopes_supported == Some(other_scopes),
        forall|name: Seq<char>| #[trigger] methods.contains(name) <==> other_methods.contains(name),
        forall|name: Seq<char>| #[trigger] scopes.contains(name) <==> other_scopes.contains(name),
    ensures
        discovery::discovered(builder, document).code_challenge_method == discovery::discovered(
            builder,
            other,
        ).code_challenge_method,
        discovery::discovered(builder, document).scopes == discovery::discovered(
            builder,
            other,
        ).scopes,
{
    if !builder.code_challenge_method_explicit {
        plain_is_chosen_only_without_s256(builder, document, methods);
        plain_is_chosen_only_without_s256(builder, other, other_methods);
        if exists|i: int| 0 <= i < methods.len() && is_s256(#[trigger] methods[i]) {
            let i = choose|i: int| 0 <= i < methods.len() && is_s256(#[trigger] methods[i]);
            assert(methods.contains(methods[i]));
            assert(other_methods.contains(methods[i]));
            let j = choose|j: int| 0 <= j < other_methods.len() && other_methods[j] == methods[i];
            s256_is_chosen_wherever_it_is_listed(builder, document, methods, i);
            s256_is_chosen_wherever_it_is_listed(builder, other, other_methods, j);
        }
        if exists|j: int| 0 <= j < other_methods.len() && is_s256(#[trigger] other_methods[j]) {
            let j = choose|j: int|
                0 <= j < other_methods.len() && is_s256(#[trigger] other_methods[j]);
            assert(other_methods.contains(other_methods[j]));
            assert(methods.contains(other_methods[j]));
            let i = choose|i: int| 0 <= i < methods.len() && methods[i] == other_methods[j];
            s256_is_chosen_wherever_it_is_listed(builder, document, methods, i);
            s256_is_chosen_wherever_it_is_listed(builder, other, other_methods, j);
        }
    }
    if !builder.scopes_explicit {
        default_scopes_on_the_list_are_requested(builder, document, scopes);
        default_scopes_on_the_list_are_requested(builder, other, other_scopes);
        assert(scopes.contains("openid"@) <==> other_scopes.contains("openid"@));
        assert(scopes.contains("email"@) <==> other_scopes.contains("email"@));
        assert(scopes.contains("profile"@) <==> other_scopes.contains("profile"@));
    }
}

/// The text in a list of its own where it is wanted, and else no text.
pub open spec fn listed_if(wanted: bool, name: Seq<char>) -> Seq<Seq<char>> {
    if wanted {
        seq![name]
    } else {
        Seq::empty()
    }
}

/// Where the caller sets no scopes and the provider lists those that it supports,
/// `openid`, `email` and `profile` are requested in this order, each exactly where
/// it is on the list, and nothing else is.
pub proof fn default_scopes_on_the_list_are_requested(
    builder: BuilderModel,
    document: DiscoveryModel,
    supported: Seq<Seq<char>>,
)
    requires
        !builder.scopes_explicit,
        document.scopes_supported == Some(supported),
    ensures
        discovery::discovered(builder, document).scopes == listed_if(
            supported.contains("openid"@),
            "openid"@,
        ) + listed_if(supported.contains("email"@), "email"@) + listed_if(
            supported.contains("profile"@),
            "profile"@,
        ),
{
    let all = crate::builder::default_scopes();
    let is_listed = |scope: Seq<char>| supported.contains(scope);
    reveal_with_fuel(Seq::filter, 4);
    assert(all.drop_last() =~= seq!["openid"@, "email"@]);
    assert(all.drop_last().drop_last() =~= seq!["openid"@]);
    assert(all.drop_last().drop_last().drop_last() =~= Seq::empty());
    assert(all.filter(is_listed) =~= listed_if(supported.contains("openid"@), "openid"@)
        + listed_if(supported.contains("email"@), "email"@) + listed_if(
        supported.contains("profile"@),
        "profile"@,
    ));
}

/// The scopes stay as they were where the caller has set them, and where the
/// provider has no list.
pub proof fn scopes_stay_where_nothing_decides(builder: BuilderModel, document: DiscoveryModel)
    requires
        builder.scopes_explicit || document.scopes_supported is None,
    ensures
        discovery::discovered(builder, document).scopes == builder.scopes,
{
}

/// An endpoint that the caller has not set is the provider's.
pub proof fn unset_endpoints_are_the_providers(builder: BuilderModel, document: DiscoveryModel)
    ensures
        ({
            let after = discovery::discovered(builder, document);
            &&& builder.authorization_endpoint is None ==> after.authorization_endpoint == Some(
                document.authorization_endpoint,
            )
            &&& builder.token_endpoint is None ==> after.token_endpoint == Some(
                document.token_endpoint,
            )
            &&& builder.end_session_endpoint is None ==> after.end_session_endpoint
                == document.end_session_endpoint
        }),
{
}

/// Discovery goes this way, for every builder and issuer: the client is built with
/// the configured certificate, the document is fetched from its well-known place
/// under the issuer, and with an answer of any status from 200 to 299 it is read
/// and fills the builder. A document that cannot be read is told of, and so is an
/// answer of another status, with the status and the body.
pub proof fn discovery_goes_this_way(
    builder: BuilderModel,
    issuer: Seq<char>,
    status: u16,
    document: DiscoveryModel,
    why: Seq<char>,
    body: Seq<char>,
    error: ErrorModel,
)
    ensures
        ({
            let base = text::without_trailing_slashes(issuer);
            let url = base + "/.well-known/openid-configuration"@;
            &&& discovery::issuer_begin(builder, issuer) matches StepModel::Perform(build, building)
            &&& build == EffectModel::BuildClient(builder.custom_ca_cert)
            &&& outside::parsed_url(base) is None ==> discovery::issuer_step(
                building,
                OutcomeModel::Done(Ok(())),
            ) == StepModel::<IssuerModel, Result<BuilderModel, ErrorModel>>::Finish(
                Err(ErrorModel::NotValidUri(base)),
            )
            &&& outside::parsed_url(base) is Some && outside::parsed_url(url) is None
                ==> discovery::issuer_step(building, OutcomeModel::Done(Ok(()))) == StepModel::<
                IssuerModel,
                Result<BuilderModel, ErrorModel>,
            >::Finish(Err(ErrorModel::NotValidUri(url)))
            &&& outside::parsed_url(base) is Some && outside::parsed_url(url) is Some ==> ({
                &&& discovery::issuer_step(building, OutcomeModel::Done(Ok(())))
                    matches StepModel::Perform(fetch, fetching)
                &&& fetch == EffectModel::Fetch(url)
                &&& discovery::issuer_step(fetching, OutcomeModel::Status(Ok(status)))
                    matches StepModel::Perform(read, reading)
                &&& 200 <= status <= 299 ==> {
                    &&& read == EffectModel::ReadDiscovery
                    &&& discovery::issuer_step(reading, OutcomeModel::Discovery(Ok(document)))
                        == StepModel::<IssuerModel, Result<BuilderModel, ErrorModel>>::Finish(
                        Ok(discovery::discovered(builder, document)),
                    )
                    &&& discovery::issuer_step(reading, OutcomeModel::Discovery(Err(why)))
                        == StepModel::<IssuerModel, Result<BuilderModel, ErrorModel>>::Finish(
                        Err(
                            ErrorModel::InvalidResponse(
                                "Failed to parse OIDC discovery document from "@ + url + ": "@
                                    + why,
                            ),
                        ),
                    )
                }
                &&& status < 200 || status > 299 ==> {
                    &&& read == EffectModel::ReadText
                    &&& discovery::issuer_step(reading, OutcomeModel::Text(Ok(body)))
                        == StepModel::<IssuerModel, Result<BuilderModel, ErrorModel>>::Finish(
                        Err(
                            ErrorModel::InvalidResponse(
                                "OIDC discovery request to "@ + url + " returned HTTP "@
                                    + outside::status_line(status) + ": "@ + body,
                            ),
                        ),
                    )
                    &&& discovery::issuer_step(reading, OutcomeModel::Text(Err(error)))
                        == StepModel::<IssuerModel, Result<BuilderModel, ErrorModel>>::Finish(
                        Err(
                            ErrorModel::InvalidResponse(
                                "OIDC discovery request to "@ + url + " returned HTTP "@
                                    + outside::status_line(status) + ": "@ + Seq::<char>::empty(),
                            ),
                        ),
                    )
                }
            })
        }),
{
}

/// An error of the client or of the request ends the discovery, and is what it
/// ends with.
pub proof fn error_ends_the_discovery(flow: IssuerModel, outcome: OutcomeModel, error: ErrorModel)
    requires
        flow.accepts(outcome),
        callback::is_error(outcome, error),
        !(outcome is Text),
    ensures
        discovery::issuer_step(flow, outcome) == StepModel::<
            IssuerModel,
            Result<BuilderModel, ErrorModel>,
        >::Finish(Err(error)),
{
}

/// Whatever comes of an effect, the discovery can take it: every status of three
/// digits, every document, every body and every error.
pub proof fn discovery_takes_what_comes(
    builder: BuilderModel,
    issuer: Seq<char>,
    status: u16,
    outcome: OutcomeModel,
)
    requires
        outside::parsed_url(text::without_trailing_slashes(issuer)) is Some,
        outside::parsed_url(discovery::discovery_url(issuer)) is Some,
        100 <= status <= 999,
        outcome matches OutcomeModel::Status(Ok(code)) ==> 100 <= code <= 999,
    ensures
        ({
            &&& discovery::issuer_begin(builder, issuer) matches StepModel::Perform(_, building)
            &&& building.is_valid()
            &&& outcome is Done ==> building.accepts(outcome)
            &&& discovery::issuer_step(building, OutcomeModel::Done(Ok(())))
                matches StepModel::Perform(_, fetching)
            &&& fetching.is_valid()
            &&& outcome is Status ==> fetching.accepts(outcome)
            &&& discovery::issuer_step(fetching, OutcomeModel::Status(Ok(status)))
                matches StepModel::Perform(_, reading)
            &&& reading.is_valid()
            &&& 200 <= status <= 299 && outcome is Discovery ==> reading.accepts(outcome)
            &&& (status < 200 || status > 299) && outcome is Text ==> reading.accepts(outcome)
        }),
{
}

} // verus!
