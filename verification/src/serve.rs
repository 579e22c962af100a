//! What the program sets out to do: how it reads its arguments, and what it needs to serve.

use vstd::prelude::*;

use crate::config::{AuthConfig, Config, ConfigView, DaemonConfig};

verus! {

/// Why the arguments of the program name no command.
#[derive(Debug, Clone, Copy, PartialEq, Eq, Structural)]
pub enum ArgsProblem {
    /// The first argument is no command.
    UnknownCommand,
    /// There is no command.
    MissingCommand,
    /// Anything else, a request for help among it.
    Other,
}

/// What to do with arguments that name no command.
#[derive(Debug)]
pub enum Fallback {
    /// Serve, with the configuration in this file if there is one.
    Serve(Option<String>),
    /// Give up.
    Exit,
}

/// What to serve with when the arguments `args` name no command, if anything is served: the path
/// of a configuration file, or none.
pub open spec fn fallback(args: Seq<String>, problem: ArgsProblem) -> Option<Option<Seq<char>>> {
    if problem == ArgsProblem::Other {
        None
    } else if args.len() < 2 {
        Some(None)
    } else if args.len() == 2 && problem == ArgsProblem::UnknownCommand {
        Some(Some(args[1]@))
    } else {
        None
    }
}

/// What to do with the arguments `args`, the first of which is the name of the program, when
/// they name no command: a lone argument is a configuration file to serve with, and without
/// any argument there is none.
pub fn without_command(args: &Vec<String>, problem: ArgsProblem) -> (r: Fallback)
    ensures
        match r {
            Fallback::Serve(Some(path)) => problem == ArgsProblem::UnknownCommand && args@.len() == 2
                && path@ == args@[1]@,
            Fallback::Serve(None) => problem != ArgsProblem::Other && args@.len() < 2,
            Fallback::Exit => problem == ArgsProblem::Other || args@.len() > 2 || (problem
                == ArgsProblem::MissingCommand && args@.len() == 2),
        },
        match r {
            Fallback::Serve(Some(path)) => fallback(args@, problem) == Some(Some(path@)),
            Fallback::Serve(None) => fallback(args@, problem) == Some(None::<Seq<char>>),
            Fallback::Exit => fallback(args@, problem) is None,
        },
{
    match problem {
        ArgsProblem::UnknownCommand => {
            if args.len() == 2 {
                Fallback::Serve(Some(args[1].clone()))
            } else if args.len() < 2 {
                Fallback::Serve(None)
            } else {
                Fallback::Exit
            }
        },
        ArgsProblem::MissingCommand => {
            if args.len() < 2 {
                Fallback::Serve(None)
            } else {
                Fallback::Exit
            }
        },
        ArgsProblem::Other => Fallback::Exit,
    }
}

/// What a server needs.
#[derive(Debug)]
pub struct ServePlan {
    /// The address to listen on.
    pub listen: String,
    /// How tokens of the issuer are checked, if they are taken.
    pub oidc: Option<AuthConfig>,
    /// Where the key of local tokens is, if they are taken.
    pub local_key_file: Option<String>,
    /// The daemon of every connection.
    pub daemon: DaemonConfig,
    /// How many connections there can be at once.
    pub slots: usize,
    /// How long connections may take to end when the server stops, in seconds.
    pub grace_secs: u64,
}

/// Whether `plan` is what a server with the configuration `config` needs.
pub open spec fn plan_of(plan: ServePlan, config: ConfigView) -> bool {
    &&& plan.listen@ == config.server.listen
    &&& match plan.oidc {
        Some(oidc) => config.auth.has_oidc() && oidc@ == config.auth,
        None => !config.auth.has_oidc(),
    }
    &&& match plan.local_key_file {
        Some(path) => config.auth.local_key_file == Some(path@),
        None => config.auth.local_key_file is None,
    }
    &&& plan.daemon@ == config.daemon
    &&& plan.slots == config.daemon.max_connections
    &&& plan.grace_secs == config.server.shutdown_grace_secs
}

/// What a server with this configuration needs. One that takes tokens of no kind is refused.
pub fn serve_plan(config: &Config) -> (r: Result<ServePlan, String>)
    ensures
        match r {
            Ok(plan) => config@.auth.has_any_backend() && plan_of(plan, config@),
            Err(e) => !config@.auth.has_any_backend() && e@
                == "no auth backend configured: set auth.allowed_org (OIDC) and/or auth.local_key_file (local JWT)"@,
        },
        r is Ok <==> config.auth.allowed_org@.len() > 0 || config.auth.local_key_file is Some,
        r matches Ok(plan) ==> {
            &&& plan.oidc is Some <==> config.auth.allowed_org@.len() > 0
            &&& plan.local_key_file is Some <==> config.auth.local_key_file is Some
        },
{
    if !config.auth.has_any_backend() {
        return Err(
            "no auth backend configured: set auth.allowed_org (OIDC) and/or auth.local_key_file (local JWT)".to_string(),
        );
    }
    let oidc: Option<AuthConfig> = if config.auth.has_oidc() {
        Some(config.auth.clone())
    } else {
        None
    };
    let local_key_file: Option<String> = match &config.auth.local_key_file {
        Some(path) => Some(path.clone()),
        None => None,
    };
    Ok(
        ServePlan {
            listen: config.server.listen.clone(),
            oidc,
            local_key_file,
            daemon: config.daemon.clone(),
            slots: config.daemon.max_connections as usize,
            grace_secs: config.server.shutdown_grace_secs,
        },
    )
}

/// A server checks the tokens of the issuer, with the whole configuration, if an organization
/// is set, whatever key file is set; and it checks local tokens, with that key, if a key file
/// is set, whatever organization is.
pub proof fn law_servers_take_every_kind_that_is_configured(plan: ServePlan, config: ConfigView)
    requires
        plan_of(plan, config),
    ensures
        config.auth.allowed_org.len() > 0 ==> (plan.oidc matches Some(oidc)
            && oidc@ == config.auth && oidc.issuer@ == config.auth.issuer && oidc.audience@ == config.auth.audience
            && oidc.allowed_org@ == config.auth.allowed_org),
        config.auth.allowed_org.len() == 0 ==> plan.oidc is None,
        match config.auth.local_key_file {
            Some(path) => plan.local_key_file matches Some(file) && file@ == path,
            None => plan.local_key_file is None,
        },
{
}

/// A server listens where it is configured to, gives out as many slots as connections are
/// allowed, and runs the configured daemon.
pub proof fn law_servers_follow_their_configuration(plan: ServePlan, config: ConfigView)
    requires
        plan_of(plan, config),
    ensures
        plan.listen@ == config.server.listen,
        plan.slots == config.daemon.max_connections,
        plan.grace_secs == config.server.shutdown_grace_secs,
        plan.daemon.nix_daemon_path@ == config.daemon.nix_daemon_path,
        plan.daemon.extra_args@.len() == config.daemon.extra_args.len(),
        forall|i: int|
            0 <= i < config.daemon.extra_args.len() ==> (
            #[trigger] plan.daemon.extra_args@[i])@ == config.daemon.extra_args[i],
        plan.daemon.timeout_secs == config.daemon.timeout_secs,
{
    assert forall|i: int| 0 <= i < config.daemon.extra_args.len() implies (
    #[trigger] plan.daemon.extra_args@[i])@ == config.daemon.extra_args[i] by {
        assert(plan.daemon@.extra_args[i] == plan.daemon.extra_args@[i]@);
    }
}

/// A lone argument that is no command is the configuration file to serve with, whatever it
/// says.
pub proof fn law_a_lone_argument_is_served_with(program: String, path: String)
    ensures
        fallback(seq![program, path], ArgsProblem::UnknownCommand) == Some(Some(path@)),
{
}

/// Without arguments the program serves without a configuration file.
pub proof fn law_without_arguments_the_program_serves(args: Seq<String>, problem: ArgsProblem)
    requires
        args.len() <= 1,
        problem != ArgsProblem::Other,
    ensures
        fallback(args, problem) == Some(None::<Seq<char>>),
{
}

/// With more arguments, with one that asks for something else, or with a command that lacks
/// its own, nothing is served.
pub proof fn law_other_arguments_are_not_served(args: Seq<String>, problem: ArgsProblem)
    requires
        args.len() > 2 || problem == ArgsProblem::Other || (args.len() == 2 && problem
            == ArgsProblem::MissingCommand),
    ensures
        fallback(args, problem) is None,
{
}

} // verus!
