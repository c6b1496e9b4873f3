//! The file-system backend: its builder, and what each operation asks of the
//! client.
//!
//! Nothing here talks to the file system. An operation is laid out as the
//! calls that its owner is to make on the client, one [`Step`] each; where the
//! outcome of a call decides how to go on, the operation takes that outcome
//! as an argument.

use vstd::prelude::*;
use crate::accessor::{AccessorCapability, AccessorMetadata, AccessorMetadataView, Capabilities, Scheme};
use crate::error::{
    has_distinct_keys,
    new_other_backend_error,
    pairs_view,
    new_other_object_error,
    other_object_error,
    BackendError,
    BackendErrorView,
    BuildCause,
    Cause,
    ErrorKind,
    IoError,
    ObjectError,
};
use crate::object::entry::{ObjectEntry, ObjectEntryView};
use crate::object::metadata::{ObjectMetadata, ObjectMetadataView};
use crate::object::mode::ObjectMode;
use crate::object::timestamp::Timestamp;
use crate::ops::{OpCreate, OpDelete, OpList, OpRead, OpStat, OpWrite, Operation};
use crate::path::{
    build_rel_path,
    build_rooted_abs_path,
    get_parent,
    is_normalized_root,
    is_rooted,
    normalize_root,
    normalized_root,
    parent_of,
    rel_path,
    rooted_abs_path,
    starts_with_root,
    without_trailing_separators,
};
use crate::services::hdfs::error::{parse_io_error, parsed_io_error};
use crate::services::oss::dir_stream::{DirStream, DirStreamView};
use crate::text::{chars_of, opt_chars, owned, same_text, text_of};

verus! {

/// The settings from which a backend is built.
#[derive(Debug, Clone, PartialEq, Eq)]
pub struct Builder {
    root: Option<String>,
    name_node: Option<String>,
}

/// A [`Builder`] with its texts as characters.
pub struct BuilderView {
    /// The root to work below; `None` for the root of the file system.
    pub root: Option<Seq<char>>,
    /// The name node to connect to.
    pub name_node: Option<Seq<char>>,
}

impl View for Builder {
    type V = BuilderView;

    closed spec fn view(&self) -> BuilderView {
        BuilderView { root: opt_chars(self.root), name_node: opt_chars(self.name_node) }
    }
}

impl BuilderView {
    /// Settings with nothing set.
    pub open spec fn empty() -> BuilderView {
        BuilderView { root: None, name_node: None }
    }

    /// These settings after `root` was given: the empty root unsets it.
    pub open spec fn with_root(self, root: Seq<char>) -> BuilderView {
        BuilderView {
            root: if root.len() == 0 {
                None
            } else {
                Some(root)
            },
            ..self
        }
    }

    /// These settings after `name_node` was given: the empty name changes
    /// nothing, any other is set without the separators at its end.
    pub open spec fn with_name_node(self, name_node: Seq<char>) -> BuilderView {
        if name_node.len() == 0 {
            self
        } else {
            BuilderView { name_node: Some(without_trailing_separators(name_node)), ..self }
        }
    }

    /// These settings after the key `key` was given with the value `value`.
    /// Keys other than `root` and `name_node` change nothing.
    pub open spec fn with_pair(self, key: Seq<char>, value: Seq<char>) -> BuilderView {
        if key == "root"@ {
            self.with_root(value)
        } else if key == "name_node"@ {
            self.with_name_node(value)
        } else {
            self
        }
    }

    /// The settings that `pairs` give, taken in their order.
    pub open spec fn with_pairs(self, pairs: Seq<(String, String)>) -> BuilderView
        decreases pairs.len(),
    {
        if pairs.len() == 0 {
            self
        } else {
            self.with_pairs(pairs.drop_last()).with_pair(pairs.last().0@, pairs.last().1@)
        }
    }
}

impl Default for Builder {
    fn default() -> (r: Self)
        ensures
            r@ == BuilderView::empty(),
    {
        Builder { root: None, name_node: None }
    }
}

impl Builder {
    /// The settings that the keys and values of `it` give, taken in their
    /// order: a later value of a key replaces an earlier one.
    pub fn from_iter(it: Vec<(String, String)>) -> (r: Self)
        ensures
            r@ == BuilderView::empty().with_pairs(it@),
    {
        let mut builder = Builder { root: None, name_node: None };
        let mut i: usize = 0;
        while i < it.len()
            invariant
                i <= it.len(),
                builder@ == BuilderView::empty().with_pairs(it@.take(i as int)),
            decreases it.len() - i,
        {
            proof {
                assert(it@.take(i + 1).drop_last() =~= it@.take(i as int));
                assert(it@.take(i + 1).last() == it@[i as int]);
            }
            let k = it[i].0.as_str();
            let v = it[i].1.as_str();
            if same_text(k, "root") {
                builder.root(v);
            } else if same_text(k, "name_node") {
                builder.name_node(v);
            }
            i += 1;
        }
        assert(it@.take(it.len() as int) =~= it@);
        builder
    }

    /// Sets the root below which every operation will work. The empty root
    /// stands for the root of the file system.
    pub fn root<'a>(&'a mut self, root: &str) -> (r: &'a mut Self)
        ensures
            r@ == old(self)@.with_root(root@),
            *final(self) == *final(r),
    {
        self.root = if root.is_empty() {
            None
        } else {
            Some(owned(root))
        };
        self
    }

    /// Sets the name node: `default` for the one of the environment's
    /// configuration, or an address such as `hdfs://127.0.0.1:9000`.
    /// Separators at the end are dropped. The empty name is ignored.
    pub fn name_node<'a>(&'a mut self, name_node: &str) -> (r: &'a mut Self)
        ensures
            r@ == old(self)@.with_name_node(name_node@),
            *final(self) == *final(r),
    {
        if !name_node.is_empty() {
            let cs = chars_of(name_node);
            let mut end: usize = cs.len();
            assert(cs@.take(cs.len() as int) =~= cs@);
            while end > 0 && cs[end - 1] == '/'
                invariant
                    end <= cs.len(),
                    without_trailing_separators(cs@) == without_trailing_separators(
                        cs@.take(end as int),
                    ),
                decreases end,
            {
                proof {
                    assert(cs@.take(end as int).drop_last() =~= cs@.take(end - 1));
                }
                end -= 1;
            }
            proof {
                assert(cs@.subrange(0, end as int) =~= cs@.take(end as int));
            }
            self.name_node = Some(text_of(&cs, 0, end));
        }
        self
    }

    /// Begins to build the backend.
    ///
    /// Without a name node nothing can be built: the error names the missing
    /// setting and the settings stay as they are. Otherwise the root is taken
    /// out of the settings and brought into normal shape, and the result is a
    /// [`Build`] that is about to connect.
    pub fn build(&mut self) -> (r: Result<Build, BackendError>)
        ensures
            match old(self)@.name_node {
                None => final(self)@ == old(self)@ && r is Err && r->Err_0@ == (BackendErrorView {
                    cause: BuildCause::MissingEndpoint,
                    context: Seq::empty(),
                    message: "endpoint must be specified"@,
                }),
                Some(name_node) => final(self)@ == (BuilderView { root: None, ..old(self)@ })
                    && r is Ok && r->Ok_0@ == (BuildView {
                    root: normalized_root(
                        match old(self)@.root {
                            Some(root) => root,
                            None => Seq::empty(),
                        },
                    ),
                    name_node,
                    stage: Stage::Connecting,
                }),
            },
            r matches Err(e) ==> has_distinct_keys(e@.context),
    {
        let name_node = match &self.name_node {
            None => {
                let context: Vec<(String, String)> = Vec::new();
                assert(pairs_view(context@) =~= Seq::empty());
                let e = new_other_backend_error(
                    context,
                    BuildCause::MissingEndpoint,
                    owned("endpoint must be specified"),
                );
                assert(e@.context =~= Seq::empty());
                return Err(e);
            },
            Some(v) => owned(v.as_str()),
        };
        let root = match &self.root {
            Some(root) => normalize_root(root.as_str()),
            None => normalize_root(""),
        };
        proof {
            reveal_strlit("");
            assert(""@ =~= Seq::<char>::empty());
        }
        self.root = None;
        Ok(Build { root, name_node, stage: Stage::Connecting })
    }
}

/// How far a [`Build`] has come.
#[derive(Debug, Clone, Copy, PartialEq, Eq, Structural)]
pub enum Stage {
    /// About to connect to the name node.
    Connecting,
    /// Connected; about to look whether the root is there.
    Probing,
    /// The root is not there; about to make it.
    CreatingRoot,
    /// Nothing is left to do.
    Ready,
}

/// One call that a [`Build`] asks for.
#[derive(Debug, Clone, PartialEq, Eq)]
pub enum BuildCall {
    /// Connect to this name node.
    Connect(String),
    /// Fetch the attributes of this path, the root.
    ProbeRoot(String),
    /// Make this directory, the root.
    CreateRoot(String),
}

/// A backend in the making: the settings in use, and what comes next.
#[derive(Debug, PartialEq, Eq)]
pub struct Build {
    root: String,
    name_node: String,
    stage: Stage,
}

/// A [`Build`] with its texts as characters.
pub struct BuildView {
    pub root: Seq<char>,
    pub name_node: Seq<char>,
    pub stage: Stage,
}

impl View for Build {
    type V = BuildView;

    closed spec fn view(&self) -> BuildView {
        BuildView { root: self.root@, name_node: self.name_node@, stage: self.stage }
    }
}

impl BuildView {
    /// The error of a build with these settings that failed for `cause`: it
    /// carries the root and the endpoint in use.
    pub open spec fn failure(self, cause: BuildCause, message: Seq<char>) -> BackendErrorView {
        BackendErrorView {
            cause,
            context: seq![("root"@, self.root), ("endpoint"@, self.name_node)],
            message,
        }
    }

    /// Where the build goes once the call of its stage has ended with
    /// `outcome`.
    ///
    /// A connection must succeed. The probe must succeed or say that the root
    /// is not there, in which case the root is made; any other failure of the
    /// probe fails the build. Making the root must succeed. Each failure
    /// carries the words of the call's failure behind words that name the
    /// call. A build that is ready stays ready.
    pub open spec fn advanced(self, outcome: Result<(), IoError>) -> Result<
        BuildView,
        BackendErrorView,
    > {
        match self.stage {
            Stage::Connecting => match outcome {
                Ok(_) => Ok(BuildView { stage: Stage::Probing, ..self }),
                Err(e) => Err(
                    self.failure(
                        BuildCause::Connect(e.kind),
                        "connect hdfs name node: "@ + e.message@,
                    ),
                ),
            },
            Stage::Probing => match outcome {
                Ok(_) => Ok(BuildView { stage: Stage::Ready, ..self }),
                Err(e) => if e.kind == ErrorKind::NotFound {
                    Ok(BuildView { stage: Stage::CreatingRoot, ..self })
                } else {
                    Err(
                        self.failure(
                            BuildCause::ProbeRoot(e.kind),
                            "probe root dir: "@ + e.message@,
                        ),
                    )
                },
            },
            Stage::CreatingRoot => match outcome {
                Ok(_) => Ok(BuildView { stage: Stage::Ready, ..self }),
                Err(e) => Err(
                    self.failure(BuildCause::CreateRoot(e.kind), "create root dir: "@ + e.message@),
                ),
            },
            Stage::Ready => Ok(self),
        }
    }

    /// The context of a failed build names the root and the endpoint, each
    /// once.
    pub proof fn lemma_failure_has_distinct_keys(self, cause: BuildCause, message: Seq<char>)
        ensures
            has_distinct_keys(self.failure(cause, message).context),
    {
        reveal_strlit("root");
        reveal_strlit("endpoint");
        assert("root"@.len() != "endpoint"@.len());
    }
}

impl Build {
    #[verifier::type_invariant]
    spec fn rooted(&self) -> bool {
        is_normalized_root(self.root@)
    }

    /// How far the build has come.
    pub fn stage(&self) -> (r: Stage)
        ensures
            r == self@.stage,
    {
        self.stage
    }

    /// The call to make next, or `None` where the build is ready.
    pub fn next_call(&self) -> (r: Option<BuildCall>)
        ensures
            match self@.stage {
                Stage::Connecting => r matches Some(BuildCall::Connect(s)) && s@
                    == self@.name_node,
                Stage::Probing => r matches Some(BuildCall::ProbeRoot(s)) && s@ == self@.root,
                Stage::CreatingRoot => r matches Some(BuildCall::CreateRoot(s)) && s@
                    == self@.root,
                Stage::Ready => r is None,
            },
    {
        match self.stage {
            Stage::Connecting => Some(BuildCall::Connect(owned(self.name_node.as_str()))),
            Stage::Probing => Some(BuildCall::ProbeRoot(owned(self.root.as_str()))),
            Stage::CreatingRoot => Some(BuildCall::CreateRoot(owned(self.root.as_str()))),
            Stage::Ready => None,
        }
    }

    /// Moves the build on once the call that [`Build::next_call`] gave has
    /// ended with `outcome`.
    pub fn advance(self, outcome: Result<(), IoError>) -> (r: Result<Build, BackendError>)
        ensures
            match self@.advanced(outcome) {
                Ok(next) => r is Ok && r->Ok_0@ == next,
                Err(e) => r is Err && r->Err_0@ == e,
            },
            r matches Err(e) ==> has_distinct_keys(e@.context),
    {
        proof {
            use_type_invariant(&self);
        }
        let Build { root, name_node, stage } = self;
        match stage {
            Stage::Connecting => match outcome {
                Ok(_) => Ok(Build { root, name_node, stage: Stage::Probing }),
                Err(e) => Err(
                    build_failure(
                        root,
                        name_node,
                        BuildCause::Connect(e.kind),
                        "connect hdfs name node: ",
                        e.message,
                    ),
                ),
            },
            Stage::Probing => match outcome {
                Ok(_) => Ok(Build { root, name_node, stage: Stage::Ready }),
                Err(e) => {
                    if e.kind == ErrorKind::NotFound {
                        Ok(Build { root, name_node, stage: Stage::CreatingRoot })
                    } else {
                        Err(
                            build_failure(
                                root,
                                name_node,
                                BuildCause::ProbeRoot(e.kind),
                                "probe root dir: ",
                                e.message,
                            ),
                        )
                    }
                },
            },
            Stage::CreatingRoot => match outcome {
                Ok(_) => Ok(Build { root, name_node, stage: Stage::Ready }),
                Err(e) => Err(
                    build_failure(
                        root,
                        name_node,
                        BuildCause::CreateRoot(e.kind),
                        "create root dir: ",
                        e.message,
                    ),
                ),
            },
            Stage::Ready => Ok(Build { root, name_node, stage: Stage::Ready }),
        }
    }

    /// The backend, once the build is ready; `None` before.
    pub fn finish(self) -> (r: Option<Backend>)
        ensures
            r is Some == (self@.stage == Stage::Ready),
            r matches Some(backend) ==> backend.spec_root() == self@.root,
    {
        proof {
            use_type_invariant(&self);
        }
        match self.stage {
            Stage::Ready => Some(Backend { root: self.root }),
            _ => None,
        }
    }
}

/// The error of a build below `root`, at `name_node`, that failed for `cause`:
/// its message is `lead` and then `words`, and its context names the root and
/// the endpoint, each once.
fn build_failure(
    root: String,
    name_node: String,
    cause: BuildCause,
    lead: &str,
    words: String,
) -> (r: BackendError)
    ensures
        r@ == (BuildView { root: root@, name_node: name_node@, stage: Stage::Ready }).failure(
            cause,
            lead@ + words@,
        ),
        has_distinct_keys(r@.context),
{
    let mut message = owned(lead);
    message.append(words.as_str());
    let mut context: Vec<(String, String)> = Vec::new();
    context.push((owned("root"), root));
    context.push((owned("endpoint"), name_node));
    proof {
        assert(pairs_view(context@) =~= seq![("root"@, root@), ("endpoint"@, name_node@)]);
        (BuildView { root: root@, name_node: name_node@, stage: Stage::Ready })
            .lemma_failure_has_distinct_keys(cause, lead@ + words@);
    }
    new_other_backend_error(context, cause, message)
}

/// The words of the error for a path that has no directory component: they
/// name the fault and give the path between quotes, as it is.
pub open spec fn malformed_path_words(path: Seq<char>) -> Seq<char> {
    "malformed path: \""@ + path + "\""@
}

/// The error of operation `op` on `path`, which has no directory component.
fn malformed_path(op: Operation, path: &str) -> (r: ObjectError)
    ensures
        r@ == other_object_error(op, path@, Cause::MalformedPath, malformed_path_words(path@)),
{
    let mut words = owned("malformed path: \"");
    words.append(path);
    words.append("\"");
    new_other_object_error(op, path, Cause::MalformedPath, words)
}

/// One call on the client of the file system.
#[derive(Debug, Clone, Copy, PartialEq, Eq, Structural)]
pub enum Call {
    /// Fetch the attributes of the target.
    Metadata,
    /// Open the target, a directory, for listing.
    ReadDir,
    /// Make the target, a directory, and every directory above it that is
    /// missing. Nothing happens where it is there already.
    CreateDir,
    /// Open the target for writing; make it if it is missing, and cut it to no
    /// content.
    OpenTruncate,
    /// Open the target for reading.
    OpenRead,
    /// Move to this byte of the file that was opened before.
    Seek(u64),
    /// End the stream of the file that was opened before after this many
    /// bytes.
    Take(u64),
    /// Copy the input to its end into the file that was opened before.
    Copy,
    /// Remove the target, a directory.
    RemoveDir,
    /// Remove the target, a file.
    RemoveFile,
}

/// One call that an operation asks for.
#[derive(Debug, Clone, PartialEq, Eq)]
pub struct Step {
    /// The operation that asks.
    pub op: Operation,
    pub call: Call,
    /// The path that the call is made on, below the backend's root.
    pub target: String,
    /// The path that a failure of the call is reported on.
    pub blame: String,
}

/// A [`Step`] with its paths as characters.
pub struct StepView {
    pub op: Operation,
    pub call: Call,
    pub target: Seq<char>,
    pub blame: Seq<char>,
}

impl View for Step {
    type V = StepView;

    open spec fn view(&self) -> StepView {
        StepView { op: self.op, call: self.call, target: self.target@, blame: self.blame@ }
    }
}

/// Steps as their views.
pub open spec fn step_views(steps: Seq<Step>) -> Seq<StepView> {
    Seq::new(steps.len(), |i: int| steps[i]@)
}

impl Step {
    pub fn new(op: Operation, call: Call, target: &str, blame: &str) -> (r: Step)
        ensures
            r@ == (StepView { op, call, target: target@, blame: blame@ }),
    {
        Step { op, call, target: owned(target), blame: owned(blame) }
    }

    /// The error of the operation where this call has failed with `err`.
    pub fn failed(&self, err: IoError) -> (r: ObjectError)
        ensures
            r@ == parsed_io_error(err@, self.op, self.blame@),
            r.kind != ErrorKind::WouldBlock,
            err.kind == ErrorKind::WouldBlock ==> r.kind == ErrorKind::Interrupted,
    {
        parse_io_error(err, self.op, self.blame.as_str())
    }
}

/// What the file system tells of one file or directory.
#[derive(Debug, Clone, Copy, PartialEq, Eq, Structural)]
pub struct FileAttributes {
    pub is_dir: bool,
    pub is_file: bool,
    /// The length of the content in bytes.
    pub len: u64,
    /// When the content was last modified.
    pub modified: Timestamp,
}

/// The mode that attributes stand for: a directory, a regular file, or
/// neither.
pub open spec fn mode_of(attributes: FileAttributes) -> ObjectMode {
    if attributes.is_dir {
        ObjectMode::DIR
    } else if attributes.is_file {
        ObjectMode::FILE
    } else {
        ObjectMode::Unknown
    }
}

/// The metadata that `stat` gives for attributes: mode, length, and the time
/// of the last modification cut to the second. The file system has neither
/// entity tags nor media types.
pub open spec fn stat_metadata(attributes: FileAttributes) -> ObjectMetadataView {
    ObjectMetadataView {
        content_length: Some(attributes.len),
        last_modified: Some(Timestamp::at(attributes.modified.seconds(), 0)),
        ..ObjectMetadataView::new(mode_of(attributes))
    }
}

/// The backend of the file system, bound to a root.
#[derive(Debug, PartialEq, Eq)]
pub struct Backend {
    root: String,
}

impl Clone for Backend {
    /// A second backend for the same root.
    fn clone(&self) -> (r: Self)
        ensures
            r.spec_root() == self.spec_root(),
    {
        proof {
            use_type_invariant(self);
        }
        Backend { root: self.root.clone() }
    }
}

impl Backend {
    #[verifier::type_invariant]
    spec fn rooted(&self) -> bool {
        is_normalized_root(self.root@)
    }

    /// The root below which every operation works.
    pub closed spec fn spec_root(&self) -> Seq<char> {
        self.root@
    }

    /// Where `path` lies in the file system.
    pub open spec fn spec_abs_path(&self, path: Seq<char>) -> Seq<char> {
        rooted_abs_path(self.spec_root(), path)
    }

    /// A backend that works below `root`, which is brought into normal shape.
    pub fn new(root: &str) -> (r: Backend)
        ensures
            r.spec_root() == normalized_root(root@),
    {
        Backend { root: normalize_root(root) }
    }

    /// The root below which every operation works, in normal shape.
    pub fn root(&self) -> (r: &str)
        ensures
            r@ == self.spec_root(),
            is_normalized_root(r@),
    {
        proof {
            use_type_invariant(self);
        }
        self.root.as_str()
    }

    /// What this backend tells of itself: it reads, writes and lists.
    pub fn metadata(&self) -> (r: AccessorMetadata)
        ensures
            r@.scheme == Scheme::Hdfs,
            r@.root == self.spec_root(),
            forall|c: AccessorCapability| r@.capabilities.has(c),
    {
        let capabilities = Capabilities::only(AccessorCapability::Read).with(
            AccessorCapability::Write,
        ).with(AccessorCapability::List);
        assert forall|c: AccessorCapability| capabilities.has(c) by {
            assert(c == AccessorCapability::Read || c == AccessorCapability::Write || c
                == AccessorCapability::List);
        }
        AccessorMetadata::new(Scheme::Hdfs, self.root.as_str(), capabilities)
    }

    /// The call that tells whether `path` is there, for operation `op`: to
    /// open the directory for a listing, to fetch the attributes for any other
    /// operation.
    pub fn probe(&self, op: Operation, path: &str) -> (r: Step)
        ensures
            r@ == (StepView {
                op,
                call: if op == Operation::List {
                    Call::ReadDir
                } else {
                    Call::Metadata
                },
                target: self.spec_abs_path(path@),
                blame: path@,
            }),
    {
        let p = build_rooted_abs_path(self.root.as_str(), path);
        let call = if op == Operation::List {
            Call::ReadDir
        } else {
            Call::Metadata
        };
        Step { op, call, target: p, blame: owned(path) }
    }

    /// The calls that create `path`.
    ///
    /// For a file: make the directory that holds it, then open the file so
    /// that it is there and empty. A failure of the first call is reported on
    /// the directory. A path without a directory component cannot be a file.
    /// For a directory: make it.
    pub fn create(&self, path: &str, args: OpCreate) -> (r: Result<Vec<Step>, ObjectError>)
        requires
            args.mode() != ObjectMode::Unknown,
        ensures
            args.mode() == ObjectMode::DIR ==> r is Ok && step_views(r->Ok_0@) == seq![
                StepView {
                    op: Operation::Create,
                    call: Call::CreateDir,
                    target: self.spec_abs_path(path@),
                    blame: path@,
                },
            ],
            args.mode() == ObjectMode::FILE ==> match parent_of(self.spec_abs_path(path@)) {
                Some(parent) => r is Ok && step_views(r->Ok_0@) == seq![
                    StepView {
                        op: Operation::Create,
                        call: Call::CreateDir,
                        target: parent,
                        blame: parent,
                    },
                    StepView {
                        op: Operation::Create,
                        call: Call::OpenTruncate,
                        target: self.spec_abs_path(path@),
                        blame: path@,
                    },
                ],
                None => r is Err && r->Err_0@ == other_object_error(
                    Operation::Create,
                    path@,
                    Cause::MalformedPath,
                    malformed_path_words(path@),
                ),
            },
    {
        let p = build_rooted_abs_path(self.root.as_str(), path);
        let mut steps: Vec<Step> = Vec::new();
        match args.mode() {
            ObjectMode::FILE => {
                let parent = match get_parent(p.as_str()) {
                    Some(parent) => parent,
                    None => {
                        return Err(malformed_path(Operation::Create, path));
                    },
                };
                let first = Step::new(
                    Operation::Create,
                    Call::CreateDir,
                    parent.as_str(),
                    parent.as_str(),
                );
                let second = Step {
                    op: Operation::Create,
                    call: Call::OpenTruncate,
                    target: p,
                    blame: owned(path),
                };
                steps.push(first);
                steps.push(second);
                assert(step_views(steps@) =~= seq![first@, second@]);
            },
            _ => {
                let only = Step {
                    op: Operation::Create,
                    call: Call::CreateDir,
                    target: p,
                    blame: owned(path),
                };
                steps.push(only);
                assert(step_views(steps@) =~= seq![only@]);
            },
        }
        Ok(steps)
    }

    /// The steps that `read` asks for with the arguments `args`.
    pub open spec fn read_steps(&self, path: Seq<char>, args: OpRead) -> Seq<StepView> {
        let target = self.spec_abs_path(path);
        let open = seq![StepView { op: Operation::Read, call: Call::OpenRead, target, blame: path }];
        let seek = match args.offset() {
            Some(offset) => seq![
                StepView { op: Operation::Read, call: Call::Seek(offset), target, blame: path },
            ],
            None => Seq::empty(),
        };
        let take = match args.size() {
            Some(size) => seq![
                StepView { op: Operation::Read, call: Call::Take(size), target, blame: path },
            ],
            None => Seq::empty(),
        };
        open + seek + take
    }

    /// The calls that read `path`: open it; where an offset is given, move
    /// there before any byte is yielded; where a size is given, end the stream
    /// after that many bytes, however long the object is.
    pub fn read(&self, path: &str, args: OpRead) -> (r: Vec<Step>)
        ensures
            step_views(r@) == self.read_steps(path@, args),
    {
        let p = build_rooted_abs_path(self.root.as_str(), path);
        let mut steps: Vec<Step> = Vec::new();
        steps.push(Step::new(Operation::Read, Call::OpenRead, p.as_str(), path));
        if let Some(offset) = args.offset() {
            steps.push(Step::new(Operation::Read, Call::Seek(offset), p.as_str(), path));
        }
        if let Some(size) = args.size() {
            steps.push(Step::new(Operation::Read, Call::Take(size), p.as_str(), path));
        }
        assert(step_views(steps@) =~= self.read_steps(path@, args));
        steps
    }

    /// The calls that write `path`: make the directory that holds it, open the
    /// file so that it is there and empty, and copy the input into it. A
    /// failure of the first call is reported on the directory. A path without
    /// a directory component cannot be written.
    pub fn write(&self, path: &str, args: OpWrite) -> (r: Result<Vec<Step>, ObjectError>)
        ensures
            match parent_of(self.spec_abs_path(path@)) {
                Some(parent) => r is Ok && step_views(r->Ok_0@) == seq![
                    StepView {
                        op: Operation::Write,
                        call: Call::CreateDir,
                        target: parent,
                        blame: parent,
                    },
                    StepView {
                        op: Operation::Write,
                        call: Call::OpenTruncate,
                        target: self.spec_abs_path(path@),
                        blame: path@,
                    },
                    StepView {
                        op: Operation::Write,
                        call: Call::Copy,
                        target: self.spec_abs_path(path@),
                        blame: path@,
                    },
                ],
                None => r is Err && r->Err_0@ == other_object_error(
                    Operation::Write,
                    path@,
                    Cause::MalformedPath,
                    malformed_path_words(path@),
                ),
            },
    {
        let p = build_rooted_abs_path(self.root.as_str(), path);
        let parent = match get_parent(p.as_str()) {
            Some(parent) => parent,
            None => {
                return Err(malformed_path(Operation::Write, path));
            },
        };
        let first = Step::new(Operation::Write, Call::CreateDir, parent.as_str(), parent.as_str());
        let second = Step::new(Operation::Write, Call::OpenTruncate, p.as_str(), path);
        let third = Step::new(Operation::Write, Call::Copy, p.as_str(), path);
        let mut steps: Vec<Step> = Vec::new();
        steps.push(first);
        steps.push(second);
        steps.push(third);
        assert(step_views(steps@) =~= seq![first@, second@, third@]);
        Ok(steps)
    }

    /// What `write` returns once its last call has ended with `outcome`: the
    /// number of bytes that were written, or the error.
    pub fn written(&self, path: &str, outcome: Result<u64, IoError>) -> (r: Result<u64, ObjectError>)
        ensures
            match outcome {
                Ok(n) => r == Ok::<u64, ObjectError>(n),
                Err(e) => r is Err && r->Err_0@ == parsed_io_error(e@, Operation::Write, path@),
            },
    {
        match outcome {
            Ok(n) => Ok(n),
            Err(e) => Err(parse_io_error(e, Operation::Write, path)),
        }
    }

    /// The metadata of `path`, from the outcome of the call that
    /// [`Backend::probe`] gave for it.
    pub fn stat(&self, path: &str, args: OpStat, probe: Result<FileAttributes, IoError>) -> (r:
        Result<ObjectMetadata, ObjectError>)
        ensures
            match probe {
                Ok(attributes) => r is Ok && r->Ok_0@ == stat_metadata(attributes),
                Err(e) => r is Err && r->Err_0@ == parsed_io_error(e@, Operation::Stat, path@),
            },
            r matches Ok(m) ==> m@.etag is None && m@.content_type is None && m@.content_length
                is Some && m@.last_modified is Some && m@.last_modified->Some_0.subsec() == 0,
    {
        match probe {
            Ok(attributes) => {
                let mode = if attributes.is_dir {
                    ObjectMode::DIR
                } else if attributes.is_file {
                    ObjectMode::FILE
                } else {
                    ObjectMode::Unknown
                };
                let mut m = ObjectMetadata::new(mode);
                m.set_content_length(attributes.len);
                m.set_last_modified(attributes.modified.truncate_to_second());
                proof {
                    Timestamp::lemma_parts(attributes.modified.seconds(), 0);
                }
                Ok(m)
            },
            Err(e) => Err(parse_io_error(e, Operation::Stat, path)),
        }
    }

    /// How to delete `path`, from the outcome of the call that
    /// [`Backend::probe`] gave for it.
    ///
    /// What is not there is deleted already: no call, no error. What is there
    /// is removed as what it is, a directory or a file. Any other failure of
    /// the probe is the error of the operation.
    pub fn delete(&self, path: &str, args: OpDelete, probe: Result<FileAttributes, IoError>) -> (r:
        Result<Option<Step>, ObjectError>)
        ensures
            match probe {
                Ok(attributes) => r is Ok && r->Ok_0 is Some && r->Ok_0->Some_0@ == (StepView {
                    op: Operation::Delete,
                    call: if attributes.is_dir {
                        Call::RemoveDir
                    } else {
                        Call::RemoveFile
                    },
                    target: self.spec_abs_path(path@),
                    blame: path@,
                }),
                Err(e) => if e.kind == ErrorKind::NotFound {
                    r == Ok::<Option<Step>, ObjectError>(None)
                } else {
                    r is Err && r->Err_0@ == parsed_io_error(e@, Operation::Delete, path@)
                },
            },
    {
        match probe {
            Ok(attributes) => {
                let p = build_rooted_abs_path(self.root.as_str(), path);
                let call = if attributes.is_dir {
                    Call::RemoveDir
                } else {
                    Call::RemoveFile
                };
                Ok(Some(Step { op: Operation::Delete, call, target: p, blame: owned(path) }))
            },
            Err(e) => {
                if e.kind == ErrorKind::NotFound {
                    Ok(None)
                } else {
                    Err(parse_io_error(e, Operation::Delete, path))
                }
            },
        }
    }

    /// The entry for something that the listing of `path` has found at `found`,
    /// a path of the file system, with the attributes `attributes`: its path
    /// below the root, with the metadata that `stat` would give, complete.
    /// What does not lie below the root is not part of any listing.
    pub fn listed(&self, path: &str, found: &str, attributes: FileAttributes) -> (r: Result<
        ObjectEntry,
        ObjectError,
    >)
        ensures
            is_rooted(self.spec_root(), found@) ==> r is Ok && r->Ok_0@ == (ObjectEntryView {
                path: rel_path(self.spec_root(), found@),
                meta: stat_metadata(attributes),
                complete: true,
            }),
            !is_rooted(self.spec_root(), found@) ==> r is Err && r->Err_0@ == other_object_error(
                Operation::List,
                path@,
                Cause::MalformedResponse,
                "entry does not lie below the root"@,
            ),
    {
        if !starts_with_root(self.root.as_str(), found) {
            return Err(
                new_other_object_error(
                    Operation::List,
                    path,
                    Cause::MalformedResponse,
                    owned("entry does not lie below the root"),
                ),
            );
        }
        let rel = build_rel_path(self.root.as_str(), found);
        match self.stat(rel.as_str(), OpStat::new(), Ok(attributes)) {
            Ok(meta) => Ok(ObjectEntry::new(rel.as_str(), meta).with_complete()),
            Err(e) => Err(e),
        }
    }

    /// The listing of `path`, from the outcome of the call that
    /// [`Backend::probe`] gave for it.
    ///
    /// A path that is not there has an empty listing: a stream that is over
    /// before its first page. Any other failure of the probe is the error of
    /// the operation.
    pub fn list(&self, path: &str, args: OpList, probe: Result<(), IoError>) -> (r: Result<
        DirStream,
        ObjectError,
    >)
        ensures
            match probe {
                Ok(_) => r is Ok && r->Ok_0@ == (DirStreamView {
                    root: self.spec_root(),
                    path: self.spec_abs_path(path@),
                    token: None,
                    done: false,
                }),
                Err(e) => if e.kind == ErrorKind::NotFound {
                    r is Ok && r->Ok_0@ == (DirStreamView {
                        root: self.spec_root(),
                        path: self.spec_abs_path(path@),
                        token: None,
                        done: true,
                    })
                } else {
                    r is Err && r->Err_0@ == parsed_io_error(e@, Operation::List, path@)
                },
            },
    {
        let p = build_rooted_abs_path(self.root.as_str(), path);
        match probe {
            Ok(_) => Ok(DirStream::new(self.root.as_str(), p.as_str())),
            Err(e) => {
                if e.kind == ErrorKind::NotFound {
                    Ok(DirStream::exhausted(self.root.as_str(), p.as_str()))
                } else {
                    Err(parse_io_error(e, Operation::List, path))
                }
            },
        }
    }
}

} // verus!
