//! Session templates: pre-configured multi-window layouts. The library
//! holds the template data and the variable substitution; reading template
//! files and driving the backend from a template stay outside.

use vstd::prelude::*;

verus! {

/// A session template.
#[derive(Debug, Clone)]
pub struct Template {
    /// Template name.
    pub name: String,
    /// Description.
    pub description: Option<String>,
    /// Root directory for the session.
    pub root: Option<String>,
    /// Commands to run on creation.
    pub on_create: Vec<String>,
    /// Windows to create.
    pub windows: Vec<TemplateWindow>,
    /// Variables available for substitution, with their prompts and
    /// defaults.
    pub variables: Vec<(String, TemplateVariable)>,
}

/// A window definition in a template.
#[derive(Debug, Clone)]
pub struct TemplateWindow {
    /// Window name.
    pub name: String,
    /// Command to run.
    pub command: Option<String>,
    /// Working directory, relative to the root or absolute.
    pub dir: Option<String>,
    /// Split panes.
    pub splits: Vec<TemplateSplit>,
}

/// A split pane definition.
#[derive(Debug, Clone)]
pub struct TemplateSplit {
    /// Command to run.
    pub command: Option<String>,
    /// Size percentage.
    pub size: Option<String>,
    /// Direction (horizontal or vertical).
    pub direction: Option<String>,
}

/// A template variable definition.
#[derive(Debug, Clone)]
pub struct TemplateVariable {
    /// Prompt shown when asking for a value.
    pub prompt: Option<String>,
    /// Default value.
    pub default: Option<String>,
}

} // verus!
