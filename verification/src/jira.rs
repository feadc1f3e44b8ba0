//! The concrete bridge this extension ships: the pinned proxy package,
//! the fixed local endpoint, and the configuration text shown by the host.

use vstd::prelude::*;
use crate::provision::BridgeSpec;

verus! {

/// Name of the package that provides the bridge proxy script.
pub const PACKAGE_NAME: &'static str = "mcp-remote";

/// The exact version the extension is pinned to.
pub const PACKAGE_VERSION: &'static str = "0.1.37";

/// Entry script of the installed package, relative to the working
/// directory the package is installed under.
pub const PACKAGE_ENTRY_PATH: &'static str = "node_modules/mcp-remote/dist/proxy.js";

/// The fixed local endpoint the bridge connects to.
pub const JIRA_MCP_URL: &'static str = "http://localhost:3010/mcp";

/// The bridge spec compiled into this extension: install the pinned proxy
/// package and run its entry script.
pub fn jira_bridge_spec() -> (b: BridgeSpec)
    ensures
        b matches BridgeSpec::PackageInstall { name, version, entry_path } && name@
            == PACKAGE_NAME@ && version@ == PACKAGE_VERSION@ && entry_path@
            == PACKAGE_ENTRY_PATH@,
{
    BridgeSpec::PackageInstall {
        name: PACKAGE_NAME.to_owned(),
        version: PACKAGE_VERSION.to_owned(),
        entry_path: PACKAGE_ENTRY_PATH.to_owned(),
    }
}

/// The endpoint the launched bridge is pointed at.
pub fn jira_endpoint() -> (s: String)
    ensures
        s@ == JIRA_MCP_URL@,
{
    JIRA_MCP_URL.to_owned()
}

/// Instructions shown by the host while the context server is being set
/// up.
pub const INSTALLATION_INSTRUCTIONS: &'static str = r#"# Jira MCP Server

This extension connects Zed to a locally running Jira MCP Server for issue management.

## Requirements

- Node.js v22 or later
- Jira MCP Server running locally on port 3010
- Jira Cloud instance with OAuth 2.0 app configured

## Setup

1. Start the Jira MCP Server:
   cd ~/development/mp/jira-mcp-server
   docker-compose up -d

   Or run locally:
   pnpm run dev

2. Authenticate with Jira:
   - Open http://localhost:3010 in your browser
   - Click "Connect to Jira"
   - Log in to Atlassian and authorize the app

3. Enable the context server in Zed Agent Panel settings

## Available Tools

### Authentication
- jira_authenticate: Start OAuth flow
- jira_auth_status: Check authentication status
- jira_logout: Disconnect from Jira

### Issue Management
- jira_get_issue: Get issue by key (e.g., PROJ-123)
- jira_create_issue: Create a new issue
- jira_update_issue: Update issue fields
- jira_delete_issue: Delete an issue
- jira_search_issues: Search using JQL
- jira_get_transitions: Get available status transitions
- jira_transition_issue: Change issue status

### Comments
- jira_get_comments: Get comments on an issue
- jira_add_comment: Add a comment
- jira_update_comment: Edit a comment
- jira_delete_comment: Delete a comment

### Extended Features
- jira_get_attachments: List issue attachments
- jira_get_worklogs: Get time logs
- jira_add_worklog: Log time on issue
- jira_get_issue_links: Get linked issues
- jira_create_issue_link: Link two issues

## Troubleshooting

If connection fails:
1. Ensure Jira MCP Server is running on port 3010
2. Check if authenticated at http://localhost:3010
3. Check the server logs: docker-compose logs -f
4. Restart Zed and re-enable the context server
"#;

/// Configuration shown by the host: installation instructions and the two
/// JSON documents (settings and their schema), both the empty object.
pub struct ConfigurationText {
    pub installation_instructions: String,
    pub default_settings: String,
    pub settings_schema: String,
}

/// Relies on serde_json's `Display` for `Value`: a JSON object with no
/// members renders as the two-character document `{}`.
#[verifier::external_body]
fn empty_json_object() -> (s: String)
    ensures
        s@ == "{}"@,
{
    serde_json::Value::Object(serde_json::Map::new()).to_string()
}

/// The configuration descriptor for this context server: the setup
/// instructions above, empty default settings, and an empty settings
/// schema.
pub fn configuration_text() -> (c: ConfigurationText)
    ensures
        c.installation_instructions@ == INSTALLATION_INSTRUCTIONS@,
        c.default_settings@ == "{}"@,
        c.settings_schema@ == "{}"@,
{
    ConfigurationText {
        installation_instructions: INSTALLATION_INSTRUCTIONS.to_owned(),
        default_settings: empty_json_object(),
        settings_schema: empty_json_object(),
    }
}

} // verus!
