use vstd::prelude::*;
use crate::descriptor::{LaunchDescriptor, LaunchDescriptorView, UnknownServerError};

verus! {

/// The identifier of the media-server integration.
pub open spec fn plex_mcp_id() -> Seq<char> {
    "plex-mcp"@
}

/// The descriptor registered for the media-server integration:
/// `uv run plex-mcp`, with an empty environment.
pub open spec fn plex_mcp_launch() -> LaunchDescriptorView {
    LaunchDescriptorView {
        executable: "uv"@,
        arguments: seq!["run"@, "plex-mcp"@],
        environment: Seq::empty(),
    }
}

/// The registry: the descriptor of each known identifier, `None` for any other.
pub open spec fn registry(id: Seq<char>) -> Option<LaunchDescriptorView> {
    if id == plex_mcp_id() {
        Some(plex_mcp_launch())
    } else {
        None
    }
}

/// The outcome of resolving `id`: the registered descriptor, or the rejected
/// identifier itself.
pub open spec fn resolution(id: Seq<char>) -> Result<LaunchDescriptorView, Seq<char>> {
    match registry(id) {
        Some(d) => Ok(d),
        None => Err(id),
    }
}

/// The outcome of asking for the command of server `id` in the context of
/// `project`. The context is accepted and never consulted.
pub open spec fn command_for<P>(id: Seq<char>, project: P) -> Result<LaunchDescriptorView, Seq<char>> {
    resolution(id)
}

/// What a call of the resolver returned, over mathematical values.
pub open spec fn outcome_view(r: Result<LaunchDescriptor, UnknownServerError>) -> Result<
    LaunchDescriptorView,
    Seq<char>,
> {
    match r {
        Ok(d) => Ok(d@),
        Err(e) => Err(e.id@),
    }
}

/// Tells whether `id` is exactly the media-server identifier.
fn is_plex_mcp(id: &str) -> (b: bool)
    ensures
        b == (id@ == plex_mcp_id()),
{
    let given = id.to_owned();
    let known = "plex-mcp".to_owned();
    given == known
}

/// The extension that tells the host how to start its context servers.
pub struct PlexMediaServerExtension;

impl PlexMediaServerExtension {
    pub fn new() -> Self {
        PlexMediaServerExtension
    }

    /// The command that starts context server `id`, or an error naming `id`
    /// when no server of that name is known.
    pub fn context_server_command<P>(&self, id: &str, project: &P) -> (r: Result<
        LaunchDescriptor,
        UnknownServerError,
    >)
        ensures
            outcome_view(r) == command_for(id@, *project),
            r matches Ok(d) ==> d.wf(),
    {
        if is_plex_mcp(id) {
            let d = LaunchDescriptor {
                executable: "uv".to_owned(),
                arguments: vec!["run".to_owned(), "plex-mcp".to_owned()],
                environment: Vec::new(),
            };
            assert(d@.arguments =~= plex_mcp_launch().arguments);
            assert(d@.environment =~= plex_mcp_launch().environment);
            Ok(d)
        } else {
            Err(UnknownServerError { id: id.to_owned() })
        }
    }
}

/// The media-server identifier always resolves to `uv run plex-mcp` with an
/// empty environment, whatever the project context.
pub proof fn lemma_plex_mcp_resolves<P>(project: P)
    ensures
        command_for("plex-mcp"@, project) matches Ok(d) && d == plex_mcp_launch(),
        plex_mcp_launch().executable == "uv"@,
        plex_mcp_launch().arguments == seq!["run"@, "plex-mcp"@],
        plex_mcp_launch().environment.len() == 0,
{
}

/// An identifier outside the registry, compared exactly and with case, is
/// rejected with an error that carries that identifier verbatim.
pub proof fn lemma_unknown_rejected<P>(id: Seq<char>, project: P)
    requires
        registry(id) is None,
    ensures
        command_for(id, project) matches Err(e) && e == id,
{
}

/// Resolving one identifier twice gives the same outcome both times.
pub proof fn lemma_resolution_idempotent<P>(
    id: Seq<char>,
    project: P,
    first: Result<LaunchDescriptor, UnknownServerError>,
    second: Result<LaunchDescriptor, UnknownServerError>,
)
    requires
        outcome_view(first) == command_for(id, project),
        outcome_view(second) == command_for(id, project),
    ensures
        outcome_view(first) == outcome_view(second),
{
}

/// The outcome depends on the identifier alone: any two project contexts give
/// the same outcome for one identifier.
pub proof fn lemma_project_irrelevant<P>(id: Seq<char>, first: P, second: P)
    ensures
        command_for(id, first) == command_for(id, second),
{
}

} // verus!
