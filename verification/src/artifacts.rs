use cargo_metadata::{camino::Utf8PathBuf, Message};
use vstd::prelude::*;
use vstd::string::StringExecFns;

verus! {

/// What the build reports of one compiled artifact, as far as the search for
/// the test executable reads it.
pub struct Artifact {
    /// The name of the target that the artifact was built from.
    pub target_name: String,
    /// Whether the target is a binary.
    pub is_bin: bool,
    /// Whether the artifact was built with the test profile.
    pub profile_test: bool,
    /// The path of the executable, where one was produced.
    pub executable: Option<String>,
}

/// Why no single test executable was found.
pub enum SelectError {
    /// Several artifacts qualify; their executables, in build order.
    MultipleExecutables(Vec<String>),
    /// No artifact qualifies.
    NoExecutables,
}

/// The name of the binary target whose test build is looked for.
pub open spec fn spec_runner_name() -> Seq<char> {
    "ci"@
}

/// Whether an artifact is the test build of the runner binary, with an executable.
pub open spec fn spec_is_test_executable(a: Artifact) -> bool {
    &&& a.target_name@ == spec_runner_name()
    &&& a.is_bin
    &&& a.profile_test
    &&& a.executable is Some
}

/// The executables of the qualifying artifacts among `s`, in order.
pub open spec fn spec_test_executables(s: Seq<Artifact>) -> Seq<Seq<char>>
    decreases s.len(),
{
    if s.len() == 0 {
        seq![]
    } else {
        let rest = spec_test_executables(s.drop_last());
        if spec_is_test_executable(s.last()) {
            rest.push(s.last().executable.unwrap()@)
        } else {
            rest
        }
    }
}

/// What the search answers for `artifacts`: the path of the one qualifying
/// executable; all their paths, in order, where there are several; or that
/// there is none.
pub open spec fn spec_selection(artifacts: Seq<Artifact>, res: Result<String, SelectError>) -> bool {
    let found = spec_test_executables(artifacts);
    &&& (found.len() == 0 <==> (res matches Err(SelectError::NoExecutables)))
    &&& (found.len() == 1 <==> res is Ok)
    &&& (res matches Ok(path) ==> path@ == found[0])
    &&& (found.len() >= 2 <==> (res matches Err(SelectError::MultipleExecutables(_))))
    &&& (res matches Err(SelectError::MultipleExecutables(paths)) ==> paths@.map_values(
        |p: String| p@,
    ) == found)
}

/// Exactly one answer meets the search's contract for given artifacts: with no
/// qualifying executable the error that there is none, with one its path, and
/// with several the error that lists them all.
pub proof fn lemma_selection_exact(artifacts: Seq<Artifact>, res: Result<String, SelectError>)
    ensures
        spec_test_executables(artifacts).len() == 0 ==> (spec_selection(artifacts, res) <==> (
        res matches Err(SelectError::NoExecutables))),
        spec_test_executables(artifacts).len() == 1 ==> (spec_selection(artifacts, res) <==> (
        res matches Ok(p) && p@ == spec_test_executables(artifacts)[0])),
        spec_test_executables(artifacts).len() >= 2 ==> (spec_selection(artifacts, res) <==> (
        res matches Err(SelectError::MultipleExecutables(ps)) && ps@.map_values(|p: String| p@)
            == spec_test_executables(artifacts))),
{
}

/// Finds the one test executable of the runner among the artifacts of a build:
/// its path if exactly one artifact qualifies, all their paths as an error if
/// several do, and an error if none does.
pub fn select_test_executable(artifacts: &Vec<Artifact>) -> (res: Result<String, SelectError>)
    ensures
        spec_selection(artifacts@, res),
{
    let runner = String::from_str("ci");
    let mut found: Vec<String> = Vec::new();
    let mut i: usize = 0;
    while i < artifacts.len()
        invariant
            i <= artifacts.len(),
            runner@ == spec_runner_name(),
            found@.map_values(|p: String| p@) == spec_test_executables(artifacts@.subrange(0, i as int)),
        decreases artifacts.len() - i,
    {
        let ghost prefix = artifacts@.subrange(0, i as int);
        let ghost next = artifacts@.subrange(0, i + 1);
        assert(next.drop_last() =~= prefix);
        assert(next.last() == artifacts@[i as int]);
        let a = &artifacts[i];
        if a.target_name == runner && a.is_bin && a.profile_test {
            match &a.executable {
                Some(path) => {
                    found.push(path.clone());
                },
                None => {},
            }
        }
        assert(found@.map_values(|p: String| p@) =~= spec_test_executables(next));
        i = i + 1;
    }
    assert(artifacts@.subrange(0, i as int) =~= artifacts@);
    if found.len() >= 2 {
        return Err(SelectError::MultipleExecutables(found));
    }
    match found.pop() {
        Some(path) => Ok(path),
        None => Err(SelectError::NoExecutables),
    }
}

/// One line of what a build prints in its machine-readable format, as far as
/// the search reads it: the report of a compiled artifact, or anything else.
pub enum BuildMessage {
    Compiled(Artifact),
    Other,
}

/// The messages that `cargo_metadata` reads from the output of a build, one per
/// line, or the text of the reader's error where a line cannot be read.
pub uninterp spec fn spec_build_messages(stdout: Seq<u8>) -> Result<Seq<BuildMessage>, Seq<char>>;

/// Reads the output of a build with `cargo_metadata::Message::parse_stream`.
/// The contract claims only that the outcome is a function of the bytes: the
/// messages in order, each compiler artifact carried over field by field and
/// every other message (other reports, and lines that are not JSON) as
/// `Other`; or, where the reader fails on a line (one that is not UTF-8), the
/// text of the first error. What the messages and the error text are for given
/// bytes is left to the name.
#[verifier::external_body]
fn parse_build_messages(stdout: &[u8]) -> (res: Result<Vec<BuildMessage>, String>)
    ensures
        res matches Ok(v) ==> (spec_build_messages(stdout@) matches Ok(m) && m == v@),
        res matches Err(e) ==> (spec_build_messages(stdout@) matches Err(t) && t == e@),
{
    let messages = Message::parse_stream(stdout)
        .collect::<Result<Vec<_>, _>>()
        .map_err(|e| e.to_string())?;
    Ok(messages.into_iter().map(|message| match message {
        Message::CompilerArtifact(a) => BuildMessage::Compiled(Artifact {
            is_bin: a.target.is_bin(),
            target_name: a.target.name,
            profile_test: a.profile.test,
            executable: a.executable.map(Utf8PathBuf::into_string),
        }),
        _ => BuildMessage::Other,
    }).collect())
}

/// The artifacts that the messages report, in order.
pub open spec fn spec_compiled_artifacts(messages: Seq<BuildMessage>) -> Seq<Artifact>
    decreases messages.len(),
{
    if messages.len() == 0 {
        seq![]
    } else {
        let rest = spec_compiled_artifacts(messages.drop_last());
        match messages.last() {
            BuildMessage::Compiled(a) => rest.push(a),
            BuildMessage::Other => rest,
        }
    }
}

/// Every compiled artifact is read, wherever its message stands: the artifacts
/// of two runs of messages, one after the other, are those of the first
/// followed by those of the second.
pub proof fn lemma_compiled_artifacts_concat(m1: Seq<BuildMessage>, m2: Seq<BuildMessage>)
    ensures
        spec_compiled_artifacts(m1 + m2) == spec_compiled_artifacts(m1) + spec_compiled_artifacts(
            m2,
        ),
    decreases m2.len(),
{
    if m2.len() == 0 {
        assert(m1 + m2 =~= m1);
        assert(spec_compiled_artifacts(m1) + spec_compiled_artifacts(m2) =~= spec_compiled_artifacts(
            m1,
        ));
    } else {
        lemma_compiled_artifacts_concat(m1, m2.drop_last());
        assert((m1 + m2).drop_last() =~= m1 + m2.drop_last());
        assert((m1 + m2).last() == m2.last());
        match m2.last() {
            BuildMessage::Compiled(a) => {
                assert(spec_compiled_artifacts(m1) + spec_compiled_artifacts(m2.drop_last()).push(a)
                    =~= (spec_compiled_artifacts(m1) + spec_compiled_artifacts(m2.drop_last())).push(
                    a,
                ));
            },
            BuildMessage::Other => {},
        }
    }
}

/// A single message reports its artifact if it is the report of a compiled
/// artifact, and nothing otherwise.
pub proof fn lemma_compiled_artifacts_single(m: BuildMessage)
    ensures
        m matches BuildMessage::Compiled(a) ==> spec_compiled_artifacts(seq![m]) == seq![a],
        m is Other ==> spec_compiled_artifacts(seq![m]) == Seq::<Artifact>::empty(),
{
    assert(seq![m].drop_last() =~= Seq::<BuildMessage>::empty());
    assert(seq![m].last() == m);
    assert(spec_compiled_artifacts(Seq::<BuildMessage>::empty()) == Seq::<Artifact>::empty());
    assert(spec_compiled_artifacts(seq![m]) == match m {
        BuildMessage::Compiled(a) => spec_compiled_artifacts(seq![m].drop_last()).push(a),
        BuildMessage::Other => spec_compiled_artifacts(seq![m].drop_last()),
    });
    match m {
        BuildMessage::Compiled(a) => {
            assert(Seq::<Artifact>::empty().push(a) =~= seq![a]);
        },
        BuildMessage::Other => {},
    }
}

/// The qualifying executables of two runs of artifacts, one after the other,
/// are those of the first followed by those of the second.
pub proof fn lemma_test_executables_concat(s1: Seq<Artifact>, s2: Seq<Artifact>)
    ensures
        spec_test_executables(s1 + s2) == spec_test_executables(s1) + spec_test_executables(s2),
    decreases s2.len(),
{
    if s2.len() == 0 {
        assert(s1 + s2 =~= s1);
        assert(spec_test_executables(s1) + spec_test_executables(s2) =~= spec_test_executables(s1));
    } else {
        lemma_test_executables_concat(s1, s2.drop_last());
        assert((s1 + s2).drop_last() =~= s1 + s2.drop_last());
        assert((s1 + s2).last() == s2.last());
        if spec_is_test_executable(s2.last()) {
            let p = s2.last().executable.unwrap()@;
            assert(spec_test_executables(s1) + spec_test_executables(s2.drop_last()).push(p)
                =~= (spec_test_executables(s1) + spec_test_executables(s2.drop_last())).push(p));
        }
    }
}

/// A single artifact yields its executable exactly when it is the test build
/// of the runner binary named "ci" and has an executable.
pub proof fn lemma_test_executables_single(a: Artifact)
    ensures
        (a.target_name@ == "ci"@ && a.is_bin && a.profile_test && a.executable is Some)
            ==> spec_test_executables(seq![a]) == seq![a.executable.unwrap()@],
        !(a.target_name@ == "ci"@ && a.is_bin && a.profile_test && a.executable is Some)
            ==> spec_test_executables(seq![a]) == Seq::<Seq<char>>::empty(),
{
    assert(seq![a].drop_last() =~= Seq::<Artifact>::empty());
    assert(seq![a].last() == a);
    assert(spec_test_executables(Seq::<Artifact>::empty()) == Seq::<Seq<char>>::empty());
    assert(spec_test_executables(seq![a]) == if spec_is_test_executable(a) {
        spec_test_executables(seq![a].drop_last()).push(a.executable.unwrap()@)
    } else {
        spec_test_executables(seq![a].drop_last())
    });
    assert(Seq::<Seq<char>>::empty().push(a.executable.unwrap()@) =~= seq![a.executable.unwrap()@]);
}

fn copy_artifact(a: &Artifact) -> (r: Artifact)
    ensures
        r == *a,
{
    let executable = match &a.executable {
        Some(path) => Some(path.clone()),
        None => None,
    };
    Artifact {
        target_name: a.target_name.clone(),
        is_bin: a.is_bin,
        profile_test: a.profile_test,
        executable,
    }
}

/// Finds the test executable of the runner among the artifacts that the
/// messages of a build report.
pub fn test_executable_from_messages(messages: &Vec<BuildMessage>) -> (res: Result<
    String,
    SelectError,
>)
    ensures
        spec_selection(spec_compiled_artifacts(messages@), res),
{
    let mut artifacts: Vec<Artifact> = Vec::new();
    let mut i: usize = 0;
    while i < messages.len()
        invariant
            i <= messages.len(),
            artifacts@ == spec_compiled_artifacts(messages@.subrange(0, i as int)),
        decreases messages.len() - i,
    {
        let ghost next = messages@.subrange(0, i + 1);
        assert(next.drop_last() =~= messages@.subrange(0, i as int));
        assert(next.last() == messages@[i as int]);
        match &messages[i] {
            BuildMessage::Compiled(a) => {
                artifacts.push(copy_artifact(a));
            },
            BuildMessage::Other => {},
        }
        i = i + 1;
    }
    assert(messages@.subrange(0, i as int) =~= messages@);
    select_test_executable(&artifacts)
}

/// Why the test executable could not be found.
pub enum CiError {
    /// The build failed.
    CommandFailed,
    /// The output of the build could not be read; the reader's error.
    Unreadable(String),
    /// The build's artifacts hold no single test executable.
    Select(SelectError),
}

/// What the search answers, as an error of the whole run where it fails.
pub open spec fn spec_ci_selection(artifacts: Seq<Artifact>, res: Result<String, CiError>) -> bool {
    match res {
        Ok(path) => spec_selection(artifacts, Ok(path)),
        Err(CiError::Select(e)) => spec_selection(artifacts, Err(e)),
        _ => false,
    }
}

/// Finds the test executable of the runner from the outcome of the build
/// command: whether it succeeded, and what it printed.
pub fn test_executable_from_build(success: bool, stdout: &[u8]) -> (res: Result<String, CiError>)
    ensures
        !success ==> (res matches Err(CiError::CommandFailed)),
        success && spec_build_messages(stdout@) is Err ==> (res matches Err(
            CiError::Unreadable(e),
        ) && e@ == spec_build_messages(stdout@)->Err_0),
        success && spec_build_messages(stdout@) is Ok ==> spec_ci_selection(
            spec_compiled_artifacts(spec_build_messages(stdout@)->Ok_0),
            res,
        ),
{
    if !success {
        return Err(CiError::CommandFailed);
    }
    match parse_build_messages(stdout) {
        Err(e) => Err(CiError::Unreadable(e)),
        Ok(messages) => match test_executable_from_messages(&messages) {
            Ok(path) => Ok(path),
            Err(e) => Err(CiError::Select(e)),
        },
    }
}

} // verus!
