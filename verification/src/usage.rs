//! The compact command reference that `lineark usage` prints.

use vstd::prelude::*;

verus! {

/// The reference up to the hint on the token's environment variable.
pub const REFERENCE_HEAD: &'static str = "lineark — Linear CLI for humans and LLMs

NAME RESOLUTION: Most flags accept names or UUIDs. Team flags accept key, name,
or UUID. --assignee accepts user name/display name. --labels accepts label names.
--project and --cycle accept names. UUIDs always work as fallback.
`me` is a special alias that resolves to the authenticated user at runtime.
It works on --assignee, --lead, and --members (case-insensitive).

COMMANDS:
  lineark whoami                                   Show authenticated user
  lineark teams list                               List all teams
  lineark users list [--active]                    List users
  lineark projects list [--led-by-me]              List all projects (with lead)
  lineark projects read <NAME-OR-ID>               Full project detail (lead, members, status, dates, teams)
  lineark projects create <NAME> --team KEY[,KEY]  Create a new project
    [--description TEXT] [--lead NAME-OR-ID|me]    Description, project lead
    [--members NAME,...|me]                        Project members (comma-separated)
    [--start-date DATE] [--target-date DATE]       Dates (YYYY-MM-DD)
    [-p 0-4] [--content TEXT]                      Priority, markdown content
    [--icon ICON] [--color COLOR]                  Icon, color
  lineark labels list [--team KEY]                 List issue labels (includes team key)
  lineark cycles list [-l N] [--team KEY]          List cycles
    [--active]                                     Only the active cycle
    [--around-active N]                            Active ± N neighbors
  lineark cycles read <ID> [--team KEY]            Read cycle (UUID, name, or number)
  lineark issues list [-l N] [--team KEY]          Active issues (done/canceled hidden), newest first
    [--project NAME-OR-ID]                         Filter by project
    [--mine]                                       Only issues assigned to me
    [--show-done]                                  Include done/canceled issues
  lineark issues read <IDENTIFIER>                 Full issue detail incl. sub-issues, comments, relations
  lineark issues search <QUERY> [-l N]             Full-text search
    [--team KEY] [--assignee NAME-OR-ID|me]        Filter by team, assignee, status
    [--status NAME,...] [--show-done]              Comma-separated status names
  lineark issues create <TITLE> --team KEY         Create an issue
    [-p 0-4] [--assignee NAME-OR-ID|me]            0=none 1=urgent 2=high 3=medium 4=low
    [--labels NAME,...] [-d TEXT] [-s NAME]        Label names (team-scoped), status name
    [--parent ID] [--project NAME-OR-ID]           Parent issue, project, cycle
    [--cycle NAME-OR-ID]
  lineark issues update <IDENTIFIER>               Update an issue
    [-s NAME] [-p 0-4] [--assignee NAME-OR-ID|me]  Status, priority, assignee
    [--labels NAME,...] [--label-by adding|replacing|removing]
    [--clear-labels] [-t TEXT] [-d TEXT]           Title, description
    [--parent ID] [--clear-parent]                 Set or remove parent
    [--project NAME-OR-ID] [--cycle NAME-OR-ID]    Project, cycle
  lineark issues archive <IDENTIFIER>              Archive an issue
  lineark issues unarchive <IDENTIFIER>            Unarchive a previously archived issue
  lineark issues delete <IDENTIFIER>               Delete (trash) an issue
    [--permanently]                                Permanently delete instead of trashing
  lineark comments create <ISSUE-ID> --body TEXT   Comment on an issue
  lineark documents list [--limit N]               List documents (lean output)
    [--project NAME-OR-ID] [--issue ID]            Filter by project or issue
  lineark documents read <ID>                      Read document (includes content)
  lineark documents create --title TEXT            Create a document
    [--content TEXT] [--project NAME-OR-ID]        Project name or UUID
    [--issue ID]
  lineark documents update <ID>                    Update a document
    [--title TEXT] [--content TEXT]
  lineark documents delete <ID>                    Delete (trash) a document
  lineark project-milestones list --project NAME   List milestones for a project
  lineark project-milestones read <ID>             Read a milestone (UUID or name with --project)
    [--project NAME-OR-ID]
  lineark project-milestones create <NAME>         Create a milestone
    --project NAME-OR-ID [--target-date DATE]      DATE = YYYY-MM-DD
    [--description TEXT]
  lineark project-milestones update <ID>           Update a milestone
    [--project NAME-OR-ID] [--name TEXT]
    [--target-date DATE] [--description TEXT]
  lineark project-milestones delete <ID>           Delete a milestone
    [--project NAME-OR-ID]
  lineark embeds upload <FILE> [--public]          Upload file to Linear, returns asset URL
                                                   Embed as markdown [name](url) in issues,
                                                   comments, or documents
                                                   --public only works for images (not SVG)
  lineark embeds download <URL>                    Download any file by URL (works with
    [--output PATH] [--overwrite]                  Linear CDN URLs and external URLs alike)
  lineark self update                              Update lineark to the latest release
  lineark self update --check                      Check if an update is available

GLOBAL OPTIONS:
  --api-token <TOKEN>   Override API token
  --format human|json   Force output format (auto-detected by default)

AUTH (in precedence order):
  1. --api-token flag
  2. $LINEAR_API_TOKEN env var";

/// The reference between the two hints on where the token comes from.
pub const REFERENCE_MIDDLE: &'static str = "
  3. ~/.linear_api_token file";

/// The reference after the hint on the token file.
pub const REFERENCE_TAIL: &'static str = "
";

/// The hint that the token's environment variable is set.
pub const ENV_SET_HINT: &'static str = " (set)";

/// The hint that the token file exists.
pub const FILE_FOUND_HINT: &'static str = " (found)";

/// The command reference: the fixed text, with a hint after the environment
/// variable when `LINEAR_API_TOKEN` is set, and one after the token file when
/// `~/.linear_api_token` exists.
pub open spec fn command_reference_text(token_in_env: bool, token_file_found: bool) -> Seq<char> {
    REFERENCE_HEAD@ + (if token_in_env {
        ENV_SET_HINT@
    } else {
        Seq::empty()
    }) + REFERENCE_MIDDLE@ + (if token_file_found {
        FILE_FOUND_HINT@
    } else {
        Seq::empty()
    }) + REFERENCE_TAIL@
}

/// The command reference (see [`command_reference_text`]).
pub fn command_reference(token_in_env: bool, token_file_found: bool) -> (text: String)
    ensures
        text@ == command_reference_text(token_in_env, token_file_found),
{
    let mut text = String::from_str(REFERENCE_HEAD);
    if token_in_env {
        text.append(ENV_SET_HINT);
    }
    text.append(REFERENCE_MIDDLE);
    if token_file_found {
        text.append(FILE_FOUND_HINT);
    }
    text.append(REFERENCE_TAIL);
    proof {
        assert(Seq::<char>::empty() + REFERENCE_MIDDLE@ =~= REFERENCE_MIDDLE@);
    }
    text
}

} // verus!
