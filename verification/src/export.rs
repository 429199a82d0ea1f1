//! The export plan: settings derived from the command line, where each
//! object's file goes, the refusal of colliding file names, whether a file
//! must be rewritten, and the final tally.

use vstd::prelude::*;
use vstd::string::{StringExecFns, StringSliceAdditionalSpecFns};

use crate::cli::{Cli, ConnectionConfig, DatabaseName};
use crate::error::Error;
use crate::kind::{
    lemma_metadata_type_injective, lemma_metadata_type_is_path_component, metadata_type_spec,
};
use crate::metadata::MetadataOptions;
use crate::objects::DbObject;
use crate::sanitize::SanitizeOptions;
use crate::selection::{
    first_invalid_token, selection_of, selector_list_tokens, string_views, ObjectSelection,
};
use crate::text::{
    chars_equal, is_ascii_alphanumeric, char_is_ascii_alphanumeric, push_char, str_chars,
    string_from_chars,
};

verus! {

broadcast use vstd::string::group_string_axioms;

/// The totals of an export.
#[derive(Debug, Clone, Copy, PartialEq, Eq, Structural)]
pub struct ExportSummary {
    /// Objects exported.
    pub total: usize,
    /// Files written (new or changed).
    pub written: usize,
    /// Files left alone because their content was unchanged.
    pub skipped: usize,
}

/// What happened to one object's file.
#[derive(Debug, Clone, Copy, PartialEq, Eq, Structural)]
pub enum WriteOutcome {
    Written,
    Skipped,
}

/// Whether `c` is kept as it is in a file name.
pub open spec fn is_file_name_char(c: char) -> bool {
    is_ascii_alphanumeric(c) || c == '_' || c == '$' || c == '#' || c == '-'
}

/// The file-name form of one character of an object name.
pub open spec fn stem_char(c: char) -> char {
    if is_file_name_char(c) {
        c
    } else {
        '_'
    }
}

/// The file name, without extension, for an object name: every character
/// that is not an ASCII letter or digit, `_`, `$`, `#` or `-` becomes `_`,
/// and an empty name becomes `_`.
pub open spec fn file_stem_spec(name: Seq<char>) -> Seq<char> {
    if name.len() == 0 {
        seq!['_']
    } else {
        name.map_values(|c: char| stem_char(c))
    }
}

/// The file name, without extension, under which an object is written.
pub fn file_stem(name: &str) -> (r: String)
    ensures
        r@ == file_stem_spec(name@),
{
    let v = str_chars(name);
    let n = v.len();
    let mut stem: Vec<char> = Vec::new();
    for i in 0..n
        invariant
            n == v.len(),
            stem@ == v@.take(i as int).map_values(|c: char| stem_char(c)),
    {
        let c = v[i];
        if char_is_ascii_alphanumeric(c) || c == '_' || c == '$' || c == '#' || c == '-' {
            stem.push(c);
        } else {
            stem.push('_');
        }
        assert(v@.take(i + 1) == v@.take(i as int).push(c));
        assert(stem@ =~= v@.take(i + 1).map_values(|c: char| stem_char(c)));
    }
    assert(v@.take(n as int) == v@);
    if n == 0 {
        stem.push('_');
    }
    string_from_chars(&stem)
}

/// File names are stable: the stem of a stem is the stem itself, and a stem
/// consists of file-name characters only.
pub proof fn lemma_file_stem_stable(name: Seq<char>)
    ensures
        file_stem_spec(file_stem_spec(name)) == file_stem_spec(name),
        file_stem_spec(name).len() > 0,
        forall|i: int|
            0 <= i < file_stem_spec(name).len() ==> is_file_name_char(
                #[trigger] file_stem_spec(name)[i],
            ),
{
    let s = file_stem_spec(name);
    assert(file_stem_spec(s) =~= s);
}

/// `b` appended to the path `a` as `Path::join` does for a relative `b`,
/// with `sep` the platform's separator: a separator goes between them unless
/// `a` is empty or already ends with one (`/`, or `sep`).
pub open spec fn join_path(a: Seq<char>, b: Seq<char>, sep: char) -> Seq<char> {
    if a.len() == 0 {
        b
    } else if a.last() == '/' || a.last() == sep {
        a + b
    } else {
        a + seq![sep] + b
    }
}

fn append_path(path: &mut String, part: &str, sep: char)
    ensures
        final(path)@ == join_path(old(path)@, part@, sep),
{
    let v = str_chars(path.as_str());
    let n = v.len();
    if n > 0 && v[n - 1] != '/' && v[n - 1] != sep {
        push_char(path, sep);
    }
    path.append(part);
    assert(path@ =~= join_path(old(path)@, part@, sep));
}

/// The primary separator of path components on this platform.
///
/// Trusted: reads `std::path::MAIN_SEPARATOR`. Nothing is claimed of its
/// value, which depends on the platform (`/` on Unix, `\` on Windows).
#[verifier::external_body]
fn main_separator() -> (sep: char) {
    std::path::MAIN_SEPARATOR
}

/// The directory that holds the files of an object's kind.
pub open spec fn output_dir_path_spec(root: Seq<char>, sep: char, object: DbObject) -> Seq<char> {
    join_path(root, metadata_type_spec(object.kind), sep)
}

/// The file an object is written to: `<root>/<kind directory>/<stem>.sql`,
/// with `sep` between the components.
pub open spec fn output_path_spec(root: Seq<char>, sep: char, object: DbObject) -> Seq<char> {
    join_path(output_dir_path_spec(root, sep, object), file_stem_spec(object.name@) + ".sql"@, sep)
}

/// The directory, under `output_root`, that holds the files of the object's
/// kind, with `sep` as the path separator.
pub fn output_dir_path_with_separator(output_root: &str, sep: char, object: &DbObject) -> (r:
    String)
    ensures
        r@ == output_dir_path_spec(output_root@, sep, *object),
{
    let mut path = String::new();
    path.append(output_root);
    append_path(&mut path, object.kind.output_dir(), sep);
    path
}

/// The file, under `output_root`, that an object is written to, with `sep`
/// as the path separator.
pub fn output_path_with_separator(output_root: &str, sep: char, object: &DbObject) -> (r: String)
    ensures
        r@ == output_path_spec(output_root@, sep, *object),
{
    let mut path = output_dir_path_with_separator(output_root, sep, object);
    let mut file = file_stem(object.name.as_str());
    file.append(".sql");
    append_path(&mut path, file.as_str(), sep);
    path
}

/// The directory, under `output_root`, that holds the files of the object's
/// kind, joined with the platform's path separator.
pub fn output_dir_path(output_root: &str, object: &DbObject) -> (r: String)
    ensures
        exists|sep: char| r@ == output_dir_path_spec(output_root@, sep, *object),
{
    let sep = main_separator();
    output_dir_path_with_separator(output_root, sep, object)
}

/// The file, under `output_root`, that an object is written to, joined with
/// the platform's path separator.
pub fn output_path(output_root: &str, object: &DbObject) -> (r: String)
    ensures
        exists|sep: char| r@ == output_path_spec(output_root@, sep, *object),
{
    let sep = main_separator();
    output_path_with_separator(output_root, sep, object)
}

/// Whether no two of `objects` go to the same file.
pub open spec fn no_collisions(root: Seq<char>, sep: char, objects: Seq<DbObject>) -> bool {
    forall|i: int, j: int|
        0 <= i < j < objects.len() ==> output_path_spec(root, sep, #[trigger] objects[i])
            != output_path_spec(root, sep, #[trigger] objects[j])
}

/// The collision error for the objects at `i` and `j`.
pub open spec fn is_collision_of(
    root: Seq<char>,
    sep: char,
    objects: Seq<DbObject>,
    i: int,
    j: int,
    e: Error,
) -> bool {
    match e {
        Error::FilenameCollision {
            path,
            first_object_type,
            first_object_name,
            second_object_type,
            second_object_name,
        } => {
            &&& path@ == output_path_spec(root, sep, objects[j])
            &&& first_object_type@ == metadata_type_spec(objects[i].kind)
            &&& first_object_name@ == objects[i].name@
            &&& second_object_type@ == metadata_type_spec(objects[j].kind)
            &&& second_object_name@ == objects[j].name@
        },
        _ => false,
    }
}

/// `e` reports the first collision: the object at `j` is the first whose
/// file is already taken, by the object at `i`.
pub open spec fn collision_reported(root: Seq<char>, sep: char, objects: Seq<DbObject>, e: Error) -> bool {
    exists|i: int, j: int|
        0 <= i < j < objects.len() && no_collisions(root, sep, objects.take(j)) && output_path_spec(
            root,
            sep,
            objects[i],
        ) == output_path_spec(root, sep, objects[j]) && #[trigger] is_collision_of(root, sep, objects, i, j, e)
}

/// Refuses a set of objects in which two objects would be written to the
/// same file; the error names the file and both objects, the second being
/// the first object (in order) whose file is already taken.
pub fn reject_filename_collisions(output_root: &str, objects: &Vec<DbObject>) -> (r: Result<
    (),
    Error,
>)
    ensures
        exists|sep: char|
            {
                &&& r is Ok <==> no_collisions(output_root@, sep, objects@)
                &&& r matches Err(e) ==> collision_reported(output_root@, sep, objects@, e)
            },
{
    let sep = main_separator();
    reject_filename_collisions_with_separator(output_root, sep, objects)
}

/// Refuses a set of objects in which two objects would be written to the
/// same file, with `sep` as the path separator; the error names the file and
/// both objects, the second being the first object (in order) whose file is
/// already taken.
pub fn reject_filename_collisions_with_separator(
    output_root: &str,
    sep: char,
    objects: &Vec<DbObject>,
) -> (r: Result<(), Error>)
    ensures
        r is Ok <==> no_collisions(output_root@, sep, objects@),
        r matches Err(e) ==> collision_reported(output_root@, sep, objects@, e),
{
    let n = objects.len();
    let mut paths: Vec<Vec<char>> = Vec::new();
    for j in 0..n
        invariant
            n == objects.len(),
            paths.len() == j,
            forall|k: int|
                0 <= k < j ==> (#[trigger] paths@[k])@ == output_path_spec(
                    output_root@,
                    sep,
                    objects@[k],
                ),
            no_collisions(output_root@, sep, objects@.take(j as int)),
    {
        let path = output_path_with_separator(output_root, sep, &objects[j]);
        let pv = str_chars(path.as_str());
        for i in 0..j
            invariant
                n == objects.len(),
                j < n,
                paths.len() == j,
                pv@ == output_path_spec(output_root@, sep, objects@[j as int]),
                path@ == output_path_spec(output_root@, sep, objects@[j as int]),
                no_collisions(output_root@, sep, objects@.take(j as int)),
                forall|k: int|
                    0 <= k < j ==> (#[trigger] paths@[k])@ == output_path_spec(
                        output_root@,
                        sep,
                        objects@[k],
                    ),
                forall|k: int|
                    0 <= k < i ==> output_path_spec(output_root@, sep, #[trigger] objects@[k])
                        != output_path_spec(output_root@, sep, objects@[j as int]),
        {
            if chars_equal(&paths[i], &pv) {
                let first = &objects[i];
                let second = &objects[j];
                let r = Err(
                    Error::FilenameCollision {
                        path,
                        first_object_type: first.kind.metadata_type(),
                        first_object_name: first.name.clone(),
                        second_object_type: second.kind.metadata_type(),
                        second_object_name: second.name.clone(),
                    },
                );
                assert(objects@.take(j as int)[i as int] == objects@[i as int]);
                assert(paths@[i as int]@ == pv@);
                assert(output_path_spec(output_root@, sep, objects@[i as int]) == output_path_spec(
                    output_root@,
                    sep,
                    objects@[j as int],
                ));
                assert(is_collision_of(output_root@, sep, objects@, i as int, j as int, r->Err_0));
                assert(!no_collisions(output_root@, sep, objects@)) by {
                    assert(objects@[i as int] == objects@[i as int]);
                }
                return r;
            }
        }
        paths.push(pv);
        assert forall|a: int, b: int|
            0 <= a < b < j + 1 implies output_path_spec(
            output_root@,
            sep,
            #[trigger] objects@.take(j + 1)[a],
        ) != output_path_spec(output_root@, sep, #[trigger] objects@.take(j + 1)[b]) by {
            if b < j {
                assert(objects@.take(j as int)[a] == objects@[a]);
                assert(objects@.take(j as int)[b] == objects@[b]);
            }
        }
    }
    assert(objects@.take(n as int) == objects@);
    Ok(())
}

/// Whether an existing file holds exactly the bytes `contents`.
pub open spec fn is_unchanged(existing: Option<&Vec<u8>>, contents: Seq<u8>) -> bool {
    match existing {
        Some(e) => e@ == contents,
        None => false,
    }
}

/// The outcome for a file that holds `existing` (or does not exist) when
/// `contents` is about to be written: skipped exactly when the bytes agree.
pub open spec fn outcome_spec(existing: Option<Seq<u8>>, contents: Seq<u8>) -> WriteOutcome {
    if existing == Some(contents) {
        WriteOutcome::Skipped
    } else {
        WriteOutcome::Written
    }
}

/// Whether an existing file must be rewritten: a file whose bytes are those
/// of the new content is skipped, a missing or different file is written.
pub fn write_outcome(existing: Option<&Vec<u8>>, contents: &str) -> (r: WriteOutcome)
    ensures
        r == outcome_spec(
            match existing {
                Some(e) => Some(e@),
                None => None,
            },
            contents.spec_bytes(),
        ),
        r == if is_unchanged(existing, contents.spec_bytes()) {
            WriteOutcome::Skipped
        } else {
            WriteOutcome::Written
        },
{
    match existing {
        None => WriteOutcome::Written,
        Some(e) => {
            let bytes = contents.as_bytes();
            if e.len() != bytes.len() {
                return WriteOutcome::Written;
            }
            let n = e.len();
            for i in 0..n
                invariant
                    existing == Some(e),
                    n == e.len(),
                    n == bytes@.len(),
                    bytes@ == contents.spec_bytes(),
                    forall|k: int| 0 <= k < i ==> e@[k] == bytes@[k],
            {
                if e[i] != bytes[i] {
                    assert(e@[i as int] != bytes@[i as int]);
                    assert(e@ != contents.spec_bytes());
                    return WriteOutcome::Written;
                }
            }
            assert(e@ =~= bytes@);
            WriteOutcome::Skipped
        },
    }
}

/// The number of outcomes equal to `o`.
pub open spec fn count_outcome(outcomes: Seq<WriteOutcome>, o: WriteOutcome) -> nat
    decreases outcomes.len(),
{
    if outcomes.len() == 0 {
        0
    } else {
        count_outcome(outcomes.drop_last(), o) + if outcomes.last() == o {
            1nat
        } else {
            0nat
        }
    }
}

/// The totals of a finished export, one outcome per object; every object is
/// either written or skipped.
pub fn summarize(outcomes: &Vec<WriteOutcome>) -> (r: ExportSummary)
    ensures
        r.total == outcomes.len(),
        r.written == count_outcome(outcomes@, WriteOutcome::Written),
        r.skipped == count_outcome(outcomes@, WriteOutcome::Skipped),
        r.total == r.written + r.skipped,
{
    let n = outcomes.len();
    let mut written: usize = 0;
    let mut skipped: usize = 0;
    for i in 0..n
        invariant
            n == outcomes.len(),
            written == count_outcome(outcomes@.take(i as int), WriteOutcome::Written),
            skipped == count_outcome(outcomes@.take(i as int), WriteOutcome::Skipped),
            written + skipped == i,
    {
        assert(outcomes@.take(i + 1).drop_last() == outcomes@.take(i as int));
        match outcomes[i] {
            WriteOutcome::Written => written = written + 1,
            WriteOutcome::Skipped => skipped = skipped + 1,
        }
    }
    assert(outcomes@.take(n as int) == outcomes@);
    ExportSummary { total: n, written, skipped }
}

/// Exporting again what an earlier export wrote rewrites nothing: when each
/// file already holds the bytes about to be written to it, every outcome is a
/// skip, and the totals count no write and every object as skipped.
pub proof fn lemma_unchanged_export_skips_all(contents: Seq<Seq<u8>>, outcomes: Seq<WriteOutcome>)
    requires
        outcomes.len() == contents.len(),
        forall|i: int|
            0 <= i < outcomes.len() ==> #[trigger] outcomes[i] == outcome_spec(
                Some(contents[i]),
                contents[i],
            ),
    ensures
        count_outcome(outcomes, WriteOutcome::Written) == 0,
        count_outcome(outcomes, WriteOutcome::Skipped) == outcomes.len(),
    decreases outcomes.len(),
{
    if outcomes.len() > 0 {
        let n = outcomes.len() - 1;
        assert(outcomes[n as int] == outcome_spec(Some(contents[n as int]), contents[n as int]));
        lemma_unchanged_export_skips_all(contents.drop_last(), outcomes.drop_last());
    }
}

/// Everything an export needs, derived from the command line.
pub struct ExportSettings {
    pub config: ConnectionConfig,
    pub metadata_options: MetadataOptions,
    pub schema: String,
    pub output: String,
    pub sanitize_options: SanitizeOptions,
    pub selection: ObjectSelection,
    pub concurrency: usize,
}

/// The settings of an export: a zero concurrency is refused, then the
/// selectors are applied; lossless exports keep quotes and full metadata.
pub fn export_settings(cli: &Cli) -> (r: Result<ExportSettings, Error>)
    requires
        cli.sid is Some != cli.service_name is Some,
    ensures
        ({
            let inc = selector_list_tokens(string_views(cli.includes@));
            let exc = selector_list_tokens(string_views(cli.excludes@));
            match r {
                Err(Error::InvalidConcurrency) => cli.concurrency == 0,
                Err(Error::InvalidObjectSelector(t)) => cli.concurrency != 0 && first_invalid_token(
                    inc + exc,
                ) == Some(t@),
                Err(_) => false,
                Ok(s) => {
                    &&& cli.concurrency != 0
                    &&& first_invalid_token(inc + exc) is None
                    &&& s.selection@ == selection_of(inc, exc)
                    &&& s.config.host@ == cli.host@
                    &&& s.config.port == cli.port
                    &&& s.config.user@ == cli.user@
                    &&& s.config.password@ == cli.password@
                    &&& match cli.sid {
                        Some(sid) => s.config.database matches DatabaseName::Sid(d) && d@ == sid@,
                        None => s.config.database matches DatabaseName::ServiceName(d) && d@
                            == cli.service_name.unwrap()@,
                    }
                    &&& s.schema@ == cli.schema@
                    &&& s.output@ == cli.output@
                    &&& s.metadata_options.lossless == cli.lossless
                    &&& s.sanitize_options.keep_quotes == (cli.keep_quotes || cli.lossless)
                    &&& s.concurrency == cli.concurrency
                },
            }
        }),
{
    if cli.concurrency == 0 {
        return Err(Error::InvalidConcurrency);
    }
    let config = cli.connection_config();
    let metadata_options = MetadataOptions { lossless: cli.lossless };
    let sanitize_options = SanitizeOptions { keep_quotes: cli.keep_quotes || cli.lossless };
    let selection = match ObjectSelection::from_selectors(
        cli.includes.as_slice(),
        cli.excludes.as_slice(),
    ) {
        Ok(s) => s,
        Err(e) => {
            return Err(e);
        },
    };
    Ok(
        ExportSettings {
            config,
            metadata_options,
            schema: cli.schema.clone(),
            output: cli.output.clone(),
            sanitize_options,
            selection,
            concurrency: cli.concurrency,
        },
    )
}

proof fn lemma_split_at_first_separator(
    da: Seq<char>,
    fa: Seq<char>,
    db: Seq<char>,
    fb: Seq<char>,
    sep: char,
)
    requires
        forall|i: int| 0 <= i < da.len() ==> #[trigger] da[i] != sep,
        forall|i: int| 0 <= i < db.len() ==> #[trigger] db[i] != sep,
        da + seq![sep] + fa == db + seq![sep] + fb,
    ensures
        da == db,
        fa == fb,
{
    let l = da + seq![sep] + fa;
    let r = db + seq![sep] + fb;
    if da.len() < db.len() {
        assert(l[da.len() as int] == sep);
        assert(r[da.len() as int] == db[da.len() as int]);
    } else if db.len() < da.len() {
        assert(r[db.len() as int] == sep);
        assert(l[db.len() as int] == da[db.len() as int]);
    }
    assert(da =~= l.take(da.len() as int));
    assert(db =~= r.take(db.len() as int));
    assert(fa =~= l.skip(da.len() as int + 1));
    assert(fb =~= r.skip(db.len() as int + 1));
}

/// The part of a joined path that comes from the root.
spec fn root_prefix(root: Seq<char>, sep: char) -> Seq<char> {
    if root.len() == 0 {
        Seq::empty()
    } else if root.last() == '/' || root.last() == sep {
        root
    } else {
        root + seq![sep]
    }
}

proof fn lemma_output_path_shape(root: Seq<char>, sep: char, o: DbObject)
    requires
        !is_file_name_char(sep),
    ensures
        output_path_spec(root, sep, o) == root_prefix(root, sep) + metadata_type_spec(o.kind)
            + seq![sep] + (file_stem_spec(o.name@) + ".sql"@),
        forall|i: int|
            0 <= i < metadata_type_spec(o.kind).len() ==> #[trigger] metadata_type_spec(o.kind)[i]
                != sep,
{
    lemma_metadata_type_is_path_component(o.kind);
    let d = metadata_type_spec(o.kind);
    let x = join_path(root, d, sep);
    assert(x == root_prefix(root, sep) + d);
    assert(x.len() > 0);
    assert(x.last() == d.last());
    assert(d.last() == d[d.len() - 1]);
    assert(d.last() != '/' && d.last() != sep);
    assert forall|i: int| 0 <= i < d.len() implies #[trigger] d[i] != sep by {
        assert('A' <= d[i] <= 'Z' || d[i] == '_');
    }
}

/// Two objects go to the same file exactly when they have the same kind and
/// the same file stem: objects of different kinds never collide. This holds
/// for every path separator that cannot occur in a file name.
pub proof fn lemma_same_file_iff_same_kind_and_stem(
    root: Seq<char>,
    sep: char,
    a: DbObject,
    b: DbObject,
)
    requires
        !is_file_name_char(sep),
    ensures
        output_path_spec(root, sep, a) == output_path_spec(root, sep, b) <==> (a.kind == b.kind
            && file_stem_spec(a.name@) == file_stem_spec(b.name@)),
{
    lemma_output_path_shape(root, sep, a);
    lemma_output_path_shape(root, sep, b);
    if output_path_spec(root, sep, a) == output_path_spec(root, sep, b) {
        let p = root_prefix(root, sep);
        let da = metadata_type_spec(a.kind);
        let db = metadata_type_spec(b.kind);
        let fa = file_stem_spec(a.name@) + ".sql"@;
        let fb = file_stem_spec(b.name@) + ".sql"@;
        let pa = p + da + seq![sep] + fa;
        let pb = p + db + seq![sep] + fb;
        assert(pa.skip(p.len() as int) =~= da + seq![sep] + fa);
        assert(pb.skip(p.len() as int) =~= db + seq![sep] + fb);
        lemma_split_at_first_separator(da, fa, db, fb, sep);
        lemma_metadata_type_injective(a.kind, b.kind);
        let sa = file_stem_spec(a.name@);
        let sb = file_stem_spec(b.name@);
        assert(sa =~= fa.take(sa.len() as int));
        assert(sb =~= fb.take(sb.len() as int));
    }
}

} // verus!
