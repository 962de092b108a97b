//! The command that launches the language server: the resolved binary, the
//! token that switches a raw tool into language-server mode, and the extra
//! arguments the user configured.

use vstd::prelude::*;
use crate::error::{message_of, ResolveError, ResolveErrorView};
use crate::text::views;

verus! {

/// How a resolved binary enters language-server mode.
#[derive(Clone, Copy, Debug, PartialEq, Eq, Structural)]
pub enum BinaryKind {
    /// A launcher that enters language-server mode by itself.
    Wrapper,
    /// The tool itself, which needs the mode token as its first argument.
    RawTool,
}

/// The outcome of a successful resolution.
#[derive(Clone, Debug, PartialEq, Eq)]
pub struct ResolvedBinary {
    pub path: String,
    pub kind: BinaryKind,
}

/// The mathematical value of a [`ResolvedBinary`].
pub struct ResolvedBinaryView {
    pub path: Seq<char>,
    pub kind: BinaryKind,
}

impl View for ResolvedBinary {
    type V = ResolvedBinaryView;

    open spec fn view(&self) -> ResolvedBinaryView {
        ResolvedBinaryView { path: self.path@, kind: self.kind }
    }
}

/// One element of the `args` list in the user's settings: a string, or a
/// value of any other kind.
#[derive(Clone, Debug, PartialEq, Eq)]
pub enum ArgValue {
    Text(String),
    Other,
}

/// The mathematical value of an [`ArgValue`].
pub enum ArgValueView {
    Text(Seq<char>),
    Other,
}

impl View for ArgValue {
    type V = ArgValueView;

    open spec fn view(&self) -> ArgValueView {
        match *self {
            ArgValue::Text(text) => ArgValueView::Text(text@),
            ArgValue::Other => ArgValueView::Other,
        }
    }
}

/// What the user's settings say about the tool, as far as launching reads
/// them.
#[derive(Clone, Debug, PartialEq, Eq)]
pub struct ToolSettings {
    /// The `path` entry, where it is present and a string.
    pub path: Option<String>,
    /// The `args` entry, where it is present and a list.
    pub args: Option<Vec<ArgValue>>,
}

/// The mathematical value of a [`ToolSettings`].
pub struct ToolSettingsView {
    pub path: Option<Seq<char>>,
    pub args: Option<Seq<ArgValueView>>,
}

impl View for ToolSettings {
    type V = ToolSettingsView;

    open spec fn view(&self) -> ToolSettingsView {
        ToolSettingsView {
            path: match self.path {
                Some(path) => Some(path@),
                None => None,
            },
            args: match self.args {
                Some(args) => Some(views(args@)),
                None => None,
            },
        }
    }
}

/// Everything the host needs to start the language server.
#[derive(Clone, Debug, PartialEq, Eq)]
pub struct LaunchSpec {
    pub command: String,
    pub args: Vec<String>,
    /// Variables to add to the environment. Always empty: the server inherits
    /// the environment of the host.
    pub env: Vec<(String, String)>,
}

/// The mathematical value of a [`LaunchSpec`].
pub struct LaunchSpecView {
    pub command: Seq<char>,
    pub args: Seq<Seq<char>>,
    pub env: Seq<(Seq<char>, Seq<char>)>,
}

impl View for LaunchSpec {
    type V = LaunchSpecView;

    open spec fn view(&self) -> LaunchSpecView {
        LaunchSpecView {
            command: self.command@,
            args: views(self.args@),
            env: Seq::new(self.env@.len(), |i: int| (self.env@[i].0@, self.env@[i].1@)),
        }
    }
}

/// The token that switches the raw tool into language-server mode.
pub open spec fn mode_token() -> Seq<char> {
    "lsp"@
}

/// The arguments a binary of the given kind needs before any of the user's.
pub open spec fn leading_args(kind: BinaryKind) -> Seq<Seq<char>> {
    match kind {
        BinaryKind::Wrapper => Seq::empty(),
        BinaryKind::RawTool => seq![mode_token()],
    }
}

/// The string-valued elements of a list, in the order in which they stand.
pub open spec fn text_values(items: Seq<ArgValueView>) -> Seq<Seq<char>>
    decreases items.len(),
{
    if items.len() == 0 {
        Seq::empty()
    } else {
        let earlier = text_values(items.drop_last());
        match items.last() {
            ArgValueView::Text(text) => earlier.push(text),
            ArgValueView::Other => earlier,
        }
    }
}

/// The extra arguments that the settings ask for.
pub open spec fn extra_args(settings: ToolSettingsView) -> Seq<Seq<char>> {
    match settings.args {
        Some(items) => text_values(items),
        None => Seq::empty(),
    }
}

/// The launch command for a resolved binary under the given settings.
pub open spec fn launch_spec_of(binary: ResolvedBinaryView, settings: ToolSettingsView)
    -> LaunchSpecView {
    LaunchSpecView {
        command: binary.path,
        args: leading_args(binary.kind) + extra_args(settings),
        env: Seq::empty(),
    }
}

/// Builds the launch command: the binary's path, the mode token where the
/// binary is the raw tool, then every string among the configured `args` in
/// the order given. Elements that are not strings are left out. Nothing is
/// added to the environment, and the arguments are not examined.
pub fn build_command(binary: ResolvedBinary, settings: &ToolSettings) -> (spec: LaunchSpec)
    ensures
        spec@ == launch_spec_of(binary@, settings@),
{
    let mut args: Vec<String> = Vec::new();
    match binary.kind {
        BinaryKind::Wrapper => {},
        BinaryKind::RawTool => {
            args.push(String::from_str("lsp"));
        },
    }
    assert(views(args@) =~= leading_args(binary.kind));
    match &settings.args {
        Some(items) => {
            let mut i: usize = 0;
            while i < items.len()
                invariant
                    i <= items.len(),
                    views(args@) == leading_args(binary.kind) + text_values(
                        views(items@).take(i as int),
                    ),
                decreases items.len() - i,
            {
                let ghost before = views(args@);
                let ghost seen = views(items@).take(i as int);
                let ghost next = views(items@).take(i + 1);
                assert(next.drop_last() =~= seen);
                assert(next.last() == items@[i as int]@);
                match &items[i] {
                    ArgValue::Text(text) => {
                        args.push(text.clone());
                        assert(views(args@) =~= before.push(text@));
                        assert(before.push(text@) =~= leading_args(binary.kind) + text_values(
                            seen,
                        ).push(text@));
                    },
                    ArgValue::Other => {},
                }
                i = i + 1;
            }
            assert(views(items@).take(i as int) =~= views(items@));
        },
        None => {
            assert(views(args@) =~= leading_args(binary.kind) + Seq::<Seq<char>>::empty());
        },
    }
    let spec = LaunchSpec { command: binary.path, args, env: Vec::new() };
    assert(spec@.env =~= Seq::empty());
    spec
}

/// What a launch request is answered with: the command for the binary that
/// the resolution found, or the message of its failure.
pub open spec fn launch_of(
    outcome: Result<ResolvedBinaryView, ResolveErrorView>,
    settings: ToolSettingsView,
) -> Result<LaunchSpecView, Seq<char>> {
    match outcome {
        Ok(binary) => Ok(launch_spec_of(binary, settings)),
        Err(error) => Err(message_of(error)),
    }
}

/// Answers a launch request from the outcome of the resolution: a binary
/// gives the command that launches it, a failure gives its message. There is
/// no launch without a binary.
pub fn launch(outcome: Result<ResolvedBinary, ResolveError>, settings: &ToolSettings) -> (answer:
    Result<LaunchSpec, String>)
    ensures
        match answer {
            Ok(spec) => outcome is Ok && spec@ == launch_spec_of(outcome->Ok_0@, settings@),
            Err(text) => outcome is Err && text@ == message_of(outcome->Err_0@),
        },
{
    match outcome {
        Ok(binary) => Ok(build_command(binary, settings)),
        Err(error) => Err(error.message()),
    }
}

} // verus!
