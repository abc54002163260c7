//! The launch decision engine: an ordered chain of states — explicit direct
//! override, namespaced override, auto-provision — in which the first
//! satisfied state is terminal, plus the precedence and determinism laws
//! that chain obeys.

use vstd::prelude::*;
use serde_json::Value;
use crate::Os;
use crate::asset::select_asset;
use crate::asset::spec_major_tag;
use crate::config::Settings;
use crate::config::collect_args;
use crate::config::spec_kept_args;
use crate::error::ResolveError;
use crate::ext::join_under;
use crate::ext::joined_url;
use crate::ext::parse_urn;
use crate::ext::urn_parse;
use vstd::string::StringExecFns;

verus! {

/// One entry of the fixed document selector: which files the backend is
/// associated with.
#[derive(Debug, Clone, PartialEq)]
pub struct DocumentFilter {
    /// Language identifier.
    pub language: Option<String>,
    /// URI scheme, e.g. "file".
    pub scheme: Option<String>,
    /// Glob pattern over file names.
    pub pattern: Option<String>,
}

/// The selector is constant for this backend family: Scala sources, any
/// scheme.
pub open spec fn is_default_selector(sel: Seq<DocumentFilter>) -> bool {
    &&& sel.len() == 1
    &&& match sel[0].language {
        Some(l) => l@ == "scala"@,
        None => false,
    }
    &&& sel[0].scheme is None
    &&& match sel[0].pattern {
        Some(p) => p@ == "**/*.{scala}"@,
        None => false,
    }
}

fn default_selector() -> (r: Vec<DocumentFilter>)
    ensures
        is_default_selector(r@),
{
    let f = DocumentFilter {
        language: Some(String::from_str("scala")),
        scheme: None,
        pattern: Some(String::from_str("**/*.{scala}")),
    };
    let mut v: Vec<DocumentFilter> = Vec::new();
    v.push(f);
    v
}

/// The terminal artifact of a resolution: everything the host needs to
/// start the backend. Ownership passes to the host's "start backend" call.
#[derive(Debug, Clone, PartialEq)]
pub struct LaunchDirective {
    pub server_uri: String,
    pub server_args: Vec<String>,
    pub document_selector: Vec<DocumentFilter>,
    /// The initialization payload, passed through untouched.
    pub options: Option<Value>,
}

/// What a resolution decides, stated over plain values. The document
/// selector and the passthrough payload are not here: the former is
/// constant, the latter is the configuration's own payload unchanged.
pub ghost enum ResolutionModel {
    Launched { server_uri: Seq<char>, server_args: Seq<Seq<char>> },
    ConfigurationFailure,
    RegistryFailure { message: Seq<char> },
    AssetFormatFailure,
}

/// Everything outside the configuration that a resolution reads: the
/// operating system, the plugin's working-directory URI, and the
/// registry's answer for the backend repository (Err carries the failure's
/// description).
pub ghost struct EnvModel {
    pub os: Os,
    pub volt_uri: Seq<char>,
    pub release: Result<Seq<char>, Seq<char>>,
}

/// The whole resolution as one function of configuration and environment.
/// A non-empty top-level `serverPath` wins; then a non-empty
/// `lsp.serverPath`, with the kept `serverArgs`; only otherwise is the
/// registry's release consulted, validated through the asset selector, and
/// the directive pointed at an install location under the plugin's
/// working-directory URI, with no arguments.
pub open spec fn spec_resolve(c: &Settings, e: EnvModel) -> ResolutionModel {
    match c.override_plan() {
        Some(plan) => match urn_parse(plan.0) {
            Some(u) => ResolutionModel::Launched { server_uri: u, server_args: plan.1 },
            None => ResolutionModel::ConfigurationFailure,
        },
        None => match e.release {
            Ok(rel) => if spec_major_tag(rel) is Some {
                match joined_url(e.volt_uri, "[filename]"@) {
                    Some(u) => ResolutionModel::Launched {
                        server_uri: u,
                        server_args: Seq::empty(),
                    },
                    None => ResolutionModel::ConfigurationFailure,
                }
            } else {
                ResolutionModel::AssetFormatFailure
            },
            Err(m) => ResolutionModel::RegistryFailure { message: m },
        },
    }
}

/// How the override states end: a terminal directive, a terminal error, or
/// the configuration handed back untouched because neither override is
/// present and auto-provisioning must run.
pub enum OverrideOutcome {
    Launch(LaunchDirective),
    Invalid(ResolveError),
    Provision(Settings),
}

fn finish_override(path: &str, args: Vec<String>, options: Option<Value>) -> (r: OverrideOutcome)
    ensures
        match r {
            OverrideOutcome::Launch(d) => urn_parse(path@) == Some(d.server_uri@) && d.server_args
                == args && is_default_selector(d.document_selector@) && d.options == options,
            OverrideOutcome::Invalid(e) => urn_parse(path@) is None && e
                == ResolveError::Configuration,
            OverrideOutcome::Provision(_) => false,
        },
{
    match parse_urn(path) {
        Ok(u) => OverrideOutcome::Launch(
            LaunchDirective {
                server_uri: u,
                server_args: args,
                document_selector: default_selector(),
                options,
            },
        ),
        Err(_) => OverrideOutcome::Invalid(ResolveError::Configuration),
    }
}

/// States one and two of the decision engine, in order: the explicit
/// direct override, then the namespaced override. Either is terminal when
/// present — no auto-provisioning work happens at all. When neither is
/// present the configuration comes back untouched for state three.
pub fn resolve_overrides(cfg: Settings) -> (r: OverrideOutcome)
    ensures
        match r {
            OverrideOutcome::Launch(d) => (match cfg.override_plan() {
                Some(plan) => urn_parse(plan.0) == Some(d.server_uri@) && d.server_args.deep_view()
                    == plan.1 && is_default_selector(d.document_selector@) && d.options
                    == cfg.options,
                None => false,
            }),
            OverrideOutcome::Invalid(e) => (match cfg.override_plan() {
                Some(plan) => urn_parse(plan.0) is None,
                None => false,
            }) && e == ResolveError::Configuration,
            OverrideOutcome::Provision(c) => cfg.override_plan() is None && c == cfg,
        },
{
    let top: Option<String> = match &cfg.server_path {
        Some(p) => if p.as_str().unicode_len() > 0 {
            Some(p.clone())
        } else {
            None
        },
        None => None,
    };
    if let Some(path) = top {
        let args: Vec<String> = Vec::new();
        proof {
            assert(args.deep_view() =~= Seq::<Seq<char>>::empty());
        }
        return finish_override(path.as_str(), args, cfg.options);
    }
    let lsp: Option<String> = match &cfg.lsp_server_path {
        Some(p) => if p.as_str().unicode_len() > 0 {
            Some(p.clone())
        } else {
            None
        },
        None => None,
    };
    if let Some(path) = lsp {
        let args = collect_args(&cfg.lsp_server_args);
        return finish_override(path.as_str(), args, cfg.options);
    }
    OverrideOutcome::Provision(cfg)
}

/// State three of the decision engine: auto-provision. The registry's
/// release string is validated through the asset selector, and the
/// directive points at an install location under the plugin's
/// working-directory URI, with no arguments — a download step outside this
/// crate is expected to place the backend binary there.
pub fn provision_directive(release: &str, os: Os, volt_uri: &str, options: Option<Value>) -> (r:
    Result<LaunchDirective, ResolveError>)
    ensures
        match r {
            Ok(d) => spec_major_tag(release@) is Some && joined_url(volt_uri@, "[filename]"@)
                == Some(d.server_uri@) && d.server_args.deep_view() == Seq::<Seq<char>>::empty()
                && is_default_selector(d.document_selector@) && d.options == options,
            Err(e) => match e {
                ResolveError::AssetFormat => spec_major_tag(release@) is None,
                ResolveError::Configuration => spec_major_tag(release@) is Some && joined_url(
                    volt_uri@,
                    "[filename]"@,
                ) is None,
                ResolveError::Registry(_) => false,
            },
        },
{
    // The plan's download URL is for the external download step; only the
    // validation it performs matters to the directive itself.
    if let Err(e) = select_asset(release, os) {
        return Err(e);
    }
    let uri = match join_under(volt_uri, "[filename]") {
        Ok(u) => u,
        Err(_) => {
            return Err(ResolveError::Configuration);
        },
    };
    let args: Vec<String> = Vec::new();
    proof {
        assert(args.deep_view() =~= Seq::<Seq<char>>::empty());
    }
    Ok(
        LaunchDirective {
            server_uri: uri,
            server_args: args,
            document_selector: default_selector(),
            options,
        },
    )
}

/// The environment snapshot the one-call resolution consumes: operating
/// system, plugin working-directory URI, and the registry's answer (Err
/// carries the failure's description).
pub struct EnvSnapshot {
    pub os: Os,
    pub volt_uri: String,
    pub release: Result<String, String>,
}

impl EnvSnapshot {
    pub open spec fn model(&self) -> EnvModel {
        EnvModel {
            os: self.os,
            volt_uri: self.volt_uri@,
            release: match self.release {
                Ok(r) => Ok(r@),
                Err(m) => Err(m@),
            },
        }
    }
}

/// The whole resolution in one call: configuration and environment
/// snapshot in, launch directive or error out, exactly as `spec_resolve`
/// says. The directive always carries the fixed document selector and the
/// configuration's own payload.
pub fn resolve(cfg: Settings, env: EnvSnapshot) -> (r: Result<LaunchDirective, ResolveError>)
    ensures
        match r {
            Ok(d) => spec_resolve(&cfg, env.model()) == (ResolutionModel::Launched {
                server_uri: d.server_uri@,
                server_args: d.server_args.deep_view(),
            }) && is_default_selector(d.document_selector@) && d.options == cfg.options,
            Err(e) => match e {
                ResolveError::Configuration => spec_resolve(&cfg, env.model())
                    == ResolutionModel::ConfigurationFailure,
                ResolveError::Registry(m) => spec_resolve(&cfg, env.model())
                    == (ResolutionModel::RegistryFailure { message: m@ }),
                ResolveError::AssetFormat => spec_resolve(&cfg, env.model())
                    == ResolutionModel::AssetFormatFailure,
            },
        },
{
    match resolve_overrides(cfg) {
        OverrideOutcome::Launch(d) => Ok(d),
        OverrideOutcome::Invalid(e) => Err(e),
        OverrideOutcome::Provision(c) => match env.release {
            Ok(rel) => provision_directive(rel.as_str(), env.os, env.volt_uri.as_str(), c.options),
            Err(m) => Err(ResolveError::Registry(m)),
        },
    }
}

/// Precedence law: a non-empty top-level override path fixes the
/// resolution outcome by itself. Any two environments — any registry
/// answer, any operating system, any plugin directory — give the same
/// outcome, and a launch carries that path's URI with no arguments.
pub proof fn lemma_top_override_precedence(c: Settings, e1: EnvModel, e2: EnvModel)
    requires
        c.top_override() is Some,
    ensures
        spec_resolve(&c, e1) == spec_resolve(&c, e2),
        match urn_parse(c.top_override()->0) {
            Some(u) => spec_resolve(&c, e1) == (ResolutionModel::Launched {
                server_uri: u,
                server_args: Seq::empty(),
            }),
            None => spec_resolve(&c, e1) == ResolutionModel::ConfigurationFailure,
        },
{
}

/// Precedence law: the namespaced override beats auto-provisioning
/// whenever it is present, independent of the environment — so of the
/// operating system and of anything the registry would return. Its launch
/// carries the kept `serverArgs`.
pub proof fn lemma_lsp_override_precedence(c: Settings, e1: EnvModel, e2: EnvModel)
    requires
        c.top_override() is None,
        c.lsp_override() is Some,
    ensures
        spec_resolve(&c, e1) == spec_resolve(&c, e2),
        match urn_parse(c.lsp_override()->0) {
            Some(u) => spec_resolve(&c, e1) == (ResolutionModel::Launched {
                server_uri: u,
                server_args: spec_kept_args(c.lsp_server_args@),
            }),
            None => spec_resolve(&c, e1) == ResolutionModel::ConfigurationFailure,
        },
{
}

/// Idempotence law: resolution reads nothing beyond its two inputs, so an
/// identical configuration under an identical environment resolves to an
/// identical outcome.
pub proof fn lemma_resolution_deterministic(
    c: Settings,
    e: EnvModel,
    r1: ResolutionModel,
    r2: ResolutionModel,
)
    requires
        r1 == spec_resolve(&c, e),
        r2 == spec_resolve(&c, e),
    ensures
        r1 == r2,
{
}

} // verus!
