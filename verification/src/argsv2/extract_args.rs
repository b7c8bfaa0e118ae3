//! The arguments of the `extract` subcommand.
use vstd::prelude::*;

verus! {

/// A property of an element of the dependency graph.
#[derive(Debug, Clone, Copy, PartialEq, Eq, Structural)]
pub enum AnalysisProperty {
    /// Callback execution durations
    CallbackDuration,
    /// Delays between callback or timer activations
    ActivationDelay,
    /// Delays between publisher publications
    PublicationDelay,
    /// Delays between subscriber messages
    MessageDelay,
    /// Latency of a communication channel
    MessageLatency,
}

impl AnalysisProperty {
    pub open spec fn spec_description(self) -> Seq<char> {
        match self {
            AnalysisProperty::CallbackDuration => "Callback execution time"@,
            AnalysisProperty::ActivationDelay => "Delays between activations"@,
            AnalysisProperty::PublicationDelay => "Delay between publication"@,
            AnalysisProperty::MessageDelay => "Delay between"@,
            AnalysisProperty::MessageLatency => "Message latency"@,
        }
    }

    /// The human-readable description of the property.
    pub fn description(&self) -> (s: &'static str)
        ensures
            s@ == self.spec_description(),
    {
        match self {
            AnalysisProperty::CallbackDuration => "Callback execution time",
            AnalysisProperty::ActivationDelay => "Delays between activations",
            AnalysisProperty::PublicationDelay => "Delay between publication",
            AnalysisProperty::MessageDelay => "Delay between",
            AnalysisProperty::MessageLatency => "Message latency",
        }
    }
}

/// What to extract from the binary bundle.
pub enum ExtractContentArgs {
    /// Extract the dependency graph
    Graph,
    /// Extract property data for a node
    Property(ExtractPropertyArgs),
}

/// The property to extract and the element to extract it for.
pub struct ExtractPropertyArgs {
    property: AnalysisProperty,
    element_id: i64,
}

impl ExtractPropertyArgs {
    pub fn new(property: AnalysisProperty, element_id: i64) -> (a: Self)
        ensures
            a.spec_property() == property,
            a.spec_element_id() == element_id,
    {
        ExtractPropertyArgs { property, element_id }
    }

    pub closed spec fn spec_property(&self) -> AnalysisProperty {
        self.property
    }

    pub closed spec fn spec_element_id(&self) -> i64 {
        self.element_id
    }

    /// The element of the dependency graph to extract the data for.
    pub fn element_id(&self) -> (id: i64)
        ensures
            id == self.spec_element_id(),
    {
        self.element_id
    }

    /// The property to extract.
    pub fn property(&self) -> (p: &AnalysisProperty)
        ensures
            *p == self.spec_property(),
    {
        &self.property
    }
}

/// The arguments of the `extract` subcommand. Paths are held as text.
pub struct ExtractArgs {
    input: Option<String>,
    output: Option<String>,
    extract_content: ExtractContentArgs,
}

impl ExtractArgs {
    pub fn new(input: Option<String>, output: Option<String>, extract_content: ExtractContentArgs) -> (a: Self)
        ensures
            a.spec_input() == input,
            a.spec_output() == output,
            a.spec_content() == extract_content,
    {
        ExtractArgs { input, output, extract_content }
    }

    pub closed spec fn spec_input(&self) -> Option<String> {
        self.input
    }

    pub closed spec fn spec_output(&self) -> Option<String> {
        self.output
    }

    pub closed spec fn spec_content(&self) -> ExtractContentArgs {
        self.extract_content
    }

    /// The bundle to read, as given.
    pub fn input(&self) -> (p: Option<&String>)
        ensures
            p == match self.spec_input() {
                Some(s) => Some(&s),
                None => None::<&String>,
            },
    {
        match &self.input {
            Some(s) => Some(s),
            None => None,
        }
    }

    /// The file to extract the data to; standard output where absent.
    pub fn output_path(&self) -> (p: Option<&String>)
        ensures
            p == match self.spec_output() {
                Some(s) => Some(&s),
                None => None::<&String>,
            },
    {
        match &self.output {
            Some(s) => Some(s),
            None => None,
        }
    }

    /// What to extract.
    pub fn content(&self) -> (c: &ExtractContentArgs)
        ensures
            *c == self.spec_content(),
    {
        &self.extract_content
    }
}

} // verus!
