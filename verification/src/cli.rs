use vstd::prelude::*;

verus! {

/// How the assembled matrix is to be rendered by the caller.
#[derive(Debug, PartialEq, Eq, Structural)]
pub enum OutputType {
    Table,
    Simple,
    Markdown,
    Json,
    Interactive,
}

/// The text an output choice is reported as.
pub open spec fn output_type_text(output: OutputType) -> Seq<char> {
    match output {
        OutputType::Table => "table"@,
        OutputType::Markdown => "markdown"@,
        OutputType::Simple => "simple"@,
        OutputType::Json => "json"@,
        OutputType::Interactive => "interactive"@,
    }
}

impl OutputType {
    /// Renders the output choice as its command-line name.
    pub fn text(&self) -> (r: String)
        ensures
            r@ == output_type_text(*self),
    {
        match self {
            OutputType::Table => "table".to_owned(),
            OutputType::Markdown => "markdown".to_owned(),
            OutputType::Simple => "simple".to_owned(),
            OutputType::Json => "json".to_owned(),
            OutputType::Interactive => "interactive".to_owned(),
        }
    }
}

/// A yes/no command-line choice that, unlike a plain flag, can default to
/// yes and still be turned off explicitly.
#[derive(Debug, PartialEq, Eq, Structural)]
pub enum BooleanCLI {
    True,
    False,
}

/// The text a yes/no choice is reported as.
pub open spec fn boolean_cli_text(value: BooleanCLI) -> Seq<char> {
    match value {
        BooleanCLI::True => "true"@,
        BooleanCLI::False => "false"@,
    }
}

impl BooleanCLI {
    /// Renders the choice as its command-line name.
    pub fn text(&self) -> (r: String)
        ensures
            r@ == boolean_cli_text(*self),
    {
        match self {
            BooleanCLI::True => "true".to_owned(),
            BooleanCLI::False => "false".to_owned(),
        }
    }
}

} // verus!
