//! The command line of the scripted language server.

use vstd::prelude::*;
use vstd::string::StringExecFns;

use crate::fake_json::{error_around, FakeLspError};
use crate::fake_lsp;
use crate::fake_lsp::{FakeLspExpectations, FakeLspScenario};
use crate::order;
use crate::text::text_equal;

verus! {

/// What the arguments read so far ask for.
pub struct ParsedProcessArgs {
    /// How many arguments were read.
    pub position: usize,
    /// The scenario.
    pub scenario: FakeLspScenario,
    /// What is expected of the opened document.
    pub expectations: FakeLspExpectations,
    /// Whether the process only sleeps.
    pub sleep_forever: bool,
}

/// The mathematical value of [`ParsedProcessArgs`].
#[verifier::ext_equal]
pub struct ParsedView {
    pub position: nat,
    pub scenario: FakeLspScenario,
    pub document_uri: Option<Seq<char>>,
    pub language_id: Option<Seq<char>>,
    pub document_text: Option<Seq<char>>,
    pub sleep_forever: bool,
}

impl View for ParsedProcessArgs {
    type V = ParsedView;

    open spec fn view(&self) -> ParsedView {
        ParsedView {
            position: self.position as nat,
            scenario: self.scenario,
            document_uri: order::optional_text(self.expectations.document_uri),
            language_id: order::optional_text(self.expectations.language_id),
            document_text: order::optional_text(self.expectations.document_text),
            sleep_forever: self.sleep_forever,
        }
    }
}

/// How far the arguments can be read.
pub enum ArgumentStep {
    /// To their end.
    Done(ParsedProcessArgs),
    /// To a file whose text is needed first.
    ReadText {
        /// The file.
        path: String,
        /// What was read before.
        parsed: ParsedProcessArgs,
    },
    /// To an argument that is wrong.
    Fail(FakeLspError),
}

/// The mathematical value of an [`ArgumentStep`].
#[verifier::ext_equal]
pub enum ArgumentStepView {
    Done(ParsedView),
    ReadText { path: Seq<char>, parsed: ParsedView },
    Fail(Seq<char>),
}

impl View for ArgumentStep {
    type V = ArgumentStepView;

    open spec fn view(&self) -> ArgumentStepView {
        match self {
            ArgumentStep::Done(parsed) => ArgumentStepView::Done(parsed@),
            ArgumentStep::ReadText { path, parsed } => ArgumentStepView::ReadText {
                path: path@,
                parsed: parsed@,
            },
            ArgumentStep::Fail(error) => ArgumentStepView::Fail(error@),
        }
    }
}

/// The values of arguments; nothing stands for one that is not UTF-8.
pub open spec fn arguments_view(arguments: Seq<Option<String>>) -> Seq<Option<Seq<char>>> {
    Seq::new(arguments.len(), |i: int| order::optional_text(arguments[i]))
}

/// The value of an option, which is the argument at `position`.
pub open spec fn option_value(
    arguments: Seq<Option<Seq<char>>>,
    position: int,
    option: Seq<char>,
) -> Result<Seq<char>, Seq<char>> {
    if position >= arguments.len() {
        Err("missing value for `"@ + option + "`"@)
    } else {
        match arguments[position] {
            Some(value) => Ok(value),
            None => Err("value for `"@ + option + "` must be UTF-8"@),
        }
    }
}

/// The scenario of a spelling.
pub open spec fn scenario_spelled(value: Seq<char>) -> Option<FakeLspScenario> {
    if exists|scenario: FakeLspScenario| #[trigger] fake_lsp::scenario_text(scenario) == value {
        Some(
            choose|scenario: FakeLspScenario| #[trigger]
                fake_lsp::scenario_text(scenario) == value,
        )
    } else {
        None
    }
}

/// What one argument, and its value where it is an option, asks for.
pub open spec fn argument_read(arguments: Seq<Option<Seq<char>>>, parsed: ParsedView) -> ArgumentStepView {
    let position = parsed.position as int;
    let value_position = position + 1;
    let after = (position + 2) as nat;
    match arguments[position] {
        None => ArgumentStepView::Fail("fake LSP arguments must be UTF-8"@),
        Some(argument) => if argument == "--scenario"@ {
            match option_value(arguments, value_position, "--scenario"@) {
                Err(complaint) => ArgumentStepView::Fail(complaint),
                Ok(value) => match scenario_spelled(value) {
                    None => ArgumentStepView::Fail(
                        "unknown fake LSP scenario `"@ + value + "`"@,
                    ),
                    Some(scenario) => ArgumentStepView::Done(
                        ParsedView { position: after, scenario, ..parsed },
                    ),
                },
            }
        } else if argument == "--expected-document-uri"@ {
            match option_value(arguments, value_position, "--expected-document-uri"@) {
                Err(complaint) => ArgumentStepView::Fail(complaint),
                Ok(value) => ArgumentStepView::Done(
                    ParsedView { position: after, document_uri: Some(value), ..parsed },
                ),
            }
        } else if argument == "--expected-language-id"@ {
            match option_value(arguments, value_position, "--expected-language-id"@) {
                Err(complaint) => ArgumentStepView::Fail(complaint),
                Ok(value) => ArgumentStepView::Done(
                    ParsedView { position: after, language_id: Some(value), ..parsed },
                ),
            }
        } else if argument == "--expected-document-text-file"@ {
            match option_value(arguments, value_position, "--expected-document-text-file"@) {
                Err(complaint) => ArgumentStepView::Fail(complaint),
                Ok(value) => ArgumentStepView::ReadText {
                    path: value,
                    parsed: ParsedView { position: after, ..parsed },
                },
            }
        } else if argument == "--sleep-forever"@ {
            ArgumentStepView::Done(
                ParsedView {
                    position: (position + 1) as nat,
                    sleep_forever: true,
                    ..parsed
                },
            )
        } else {
            ArgumentStepView::Fail("unknown fake LSP argument `"@ + argument + "`"@)
        },
    }
}

/// How far the arguments can be read, where `parsed` was read before.
pub open spec fn arguments_read(arguments: Seq<Option<Seq<char>>>, parsed: ParsedView) -> ArgumentStepView
    decreases arguments.len() - parsed.position,
{
    if parsed.position >= arguments.len() {
        ArgumentStepView::Done(parsed)
    } else {
        match argument_read(arguments, parsed) {
            ArgumentStepView::Done(next) => arguments_read(arguments, next),
            other => other,
        }
    }
}

/// Returns the value of an option.
fn take_value(arguments: &Vec<Option<String>>, position: usize, option: &str) -> (value: Result<
    String,
    FakeLspError,
>)
    ensures
        ({
            let expected = option_value(arguments_view(arguments@), position as int, option@);
            match value {
                Ok(value) => expected == Ok::<Seq<char>, Seq<char>>(value@) && position
                    < arguments@.len(),
                Err(error) => expected == Err::<Seq<char>, Seq<char>>(error@),
            }
        }),
{
    if position >= arguments.len() {
        return Err(error_around("missing value for `", option, "`"));
    }
    match &arguments[position] {
        Some(value) => Ok(value.clone()),
        None => Err(error_around("value for `", option, "` must be UTF-8")),
    }
}

/// Parses one argument, and its value where it is an option.
fn parse_argument(arguments: &Vec<Option<String>>, parsed: ParsedProcessArgs) -> (step: ArgumentStep)
    requires
        parsed.position < arguments@.len(),
    ensures
        step@ == argument_read(arguments_view(arguments@), parsed@),
        step matches ArgumentStep::Done(next) ==> parsed.position < next.position
            <= arguments@.len(),
{
    let count: usize = arguments.len();
    let mut parsed = parsed;
    let position: usize = parsed.position;
    assert(position < count);
    let argument: &str = match &arguments[position] {
        Some(argument) => argument.as_str(),
        None => return ArgumentStep::Fail(FakeLspError::new("fake LSP arguments must be UTF-8")),
    };
    if text_equal(argument, "--scenario") {
        match take_value(arguments, position + 1, "--scenario") {
            Err(error) => ArgumentStep::Fail(error),
            Ok(value) => match FakeLspScenario::parse(value.as_str()) {
                Err(error) => ArgumentStep::Fail(error),
                Ok(scenario) => {
                    proof {
                        assert(fake_lsp::scenario_text(scenario) == value@);
                        let spelled = scenario_spelled(value@)->Some_0;
                        fake_lsp::law_scenario_spellings_are_unique(scenario, spelled);
                    }
                    parsed.scenario = scenario;
                    parsed.position = position + 2;
                    ArgumentStep::Done(parsed)
                },
            },
        }
    } else if text_equal(argument, "--expected-document-uri") {
        match take_value(arguments, position + 1, "--expected-document-uri") {
            Err(error) => ArgumentStep::Fail(error),
            Ok(value) => {
                parsed.expectations.document_uri = Some(value);
                parsed.position = position + 2;
                ArgumentStep::Done(parsed)
            },
        }
    } else if text_equal(argument, "--expected-language-id") {
        match take_value(arguments, position + 1, "--expected-language-id") {
            Err(error) => ArgumentStep::Fail(error),
            Ok(value) => {
                parsed.expectations.language_id = Some(value);
                parsed.position = position + 2;
                ArgumentStep::Done(parsed)
            },
        }
    } else if text_equal(argument, "--expected-document-text-file") {
        match take_value(arguments, position + 1, "--expected-document-text-file") {
            Err(error) => ArgumentStep::Fail(error),
            Ok(path) => {
                parsed.position = position + 2;
                ArgumentStep::ReadText { path, parsed }
            },
        }
    } else if text_equal(argument, "--sleep-forever") {
        parsed.sleep_forever = true;
        parsed.position = position + 1;
        ArgumentStep::Done(parsed)
    } else {
        ArgumentStep::Fail(error_around("unknown fake LSP argument `", argument, "`"))
    }
}

/// Parses the arguments after what was read before, to their end, to a file
/// whose text is needed, or to one that is wrong.
pub fn parse_process_args(arguments: &Vec<Option<String>>, parsed: ParsedProcessArgs) -> (step:
    ArgumentStep)
    ensures
        step@ == arguments_read(arguments_view(arguments@), parsed@),
{
    let ghost views = arguments_view(arguments@);
    let ghost expected = arguments_read(views, parsed@);
    let mut parsed = parsed;
    #[verifier::loop_isolation(false)]
    while parsed.position < arguments.len()
        invariant
            views == arguments_view(arguments@),
            expected == arguments_read(views, parsed@),
        decreases arguments@.len() - parsed.position,
    {
        match parse_argument(arguments, parsed) {
            ArgumentStep::Done(next) => {
                parsed = next;
            },
            other => return other,
        }
    }
    ArgumentStep::Done(parsed)
}

impl ParsedProcessArgs {
    /// Returns what no argument asks for: a successful session, and no
    /// expectations.
    pub fn new() -> (parsed: Self)
        ensures
            parsed@ == (ParsedView {
                position: 0,
                scenario: FakeLspScenario::Success,
                document_uri: None,
                language_id: None,
                document_text: None,
                sleep_forever: false,
            }),
    {
        ParsedProcessArgs {
            position: 0,
            scenario: FakeLspScenario::Success,
            expectations: FakeLspExpectations::default(),
            sleep_forever: false,
        }
    }

    /// Takes the text of a file that was needed, or why it could not be read.
    pub fn with_text(self, text: Result<String, String>) -> (parsed: Result<Self, FakeLspError>)
        ensures
            match (text, parsed) {
                (Ok(text), Ok(parsed)) => parsed@ == (ParsedView {
                    document_text: Some(text@),
                    ..self@
                }),
                (Err(reason), Err(error)) => error@ == "failed to read expected document text: "@
                    + reason@,
                _ => false,
            },
    {
        let mut parsed = self;
        match text {
            Ok(text) => {
                parsed.expectations.document_text = Some(text);
                Ok(parsed)
            },
            Err(reason) => {
                let mut message = "failed to read expected document text: ".to_owned();
                message.append(reason.as_str());
                Err(FakeLspError { message })
            },
        }
    }
}

} // verus!
