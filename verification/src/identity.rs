//! Best-effort identity of the process being specialized, from three
//! sources of falling reliability.

use crate::text::{chars_of, decode_or_empty, find_byte, position_of, slice_chars, text_or_empty};
use vstd::prelude::*;
use vstd::slice::slice_subrange;

verus! {

/// What the managed runtime returned for the two string fields of the
/// specialization arguments. `None` stands for a read that failed, be it
/// because no runtime binding could be attached or because the field could
/// not be fetched.
#[derive(Debug, PartialEq, Eq)]
pub struct AppSpecializeArgs {
    pub nice_name: Option<String>,
    pub app_data_dir: Option<String>,
}

/// Mathematical content of [`AppSpecializeArgs`].
pub struct ArgsView {
    pub nice_name: Option<Seq<char>>,
    pub app_data_dir: Option<Seq<char>>,
}

/// The characters of an optional string.
pub open spec fn opt_text(s: Option<String>) -> Option<Seq<char>> {
    match s {
        Some(t) => Some(t@),
        None => None,
    }
}

impl View for AppSpecializeArgs {
    type V = ArgsView;

    open spec fn view(&self) -> ArgsView {
        ArgsView {
            nice_name: opt_text(self.nice_name),
            app_data_dir: opt_text(self.app_data_dir),
        }
    }
}

/// `s` without the slashes at its end.
pub open spec fn strip_trailing_slashes(s: Seq<char>) -> Seq<char>
    decreases s.len(),
{
    if s.len() > 0 && s.last() == '/' {
        strip_trailing_slashes(s.drop_last())
    } else {
        s
    }
}

/// The characters after the last slash of `s`; all of `s` if it has none.
pub open spec fn final_component(s: Seq<char>) -> Seq<char>
    decreases s.len(),
{
    if s.len() == 0 || s.last() == '/' {
        Seq::empty()
    } else {
        final_component(s.drop_last()).push(s.last())
    }
}

/// The last non-empty segment of a slash-separated path; empty if every
/// segment is empty.
pub open spec fn package_of_path(path: Seq<char>) -> Seq<char> {
    final_component(strip_trailing_slashes(path))
}

/// A source yields something if it was read and is not empty.
pub open spec fn yields(source: Option<Seq<char>>) -> bool {
    source is Some && source->0.len() > 0
}

/// Identity from the runtime's two fields: the nice name if it yields
/// anything, else the package of the data directory if that yields anything,
/// else nothing.
pub open spec fn name_from_args(args: ArgsView) -> Seq<char> {
    if yields(args.nice_name) {
        args.nice_name->0
    } else if yields(args.app_data_dir) {
        package_of_path(args.app_data_dir->0)
    } else {
        Seq::empty()
    }
}

/// Identity from a raw command line: the bytes before the first NUL, as
/// text; empty if they are not text.
pub open spec fn cmdline_text(raw: Seq<u8>) -> Seq<char> {
    text_or_empty(raw.take(position_of(raw, 0)))
}

/// Identity over all three sources, in order of preference.
pub open spec fn resolved_identity(args: ArgsView, cmdline: Seq<u8>) -> Seq<char> {
    if yields(args.nice_name) || yields(args.app_data_dir) {
        name_from_args(args)
    } else {
        cmdline_text(cmdline)
    }
}

/// The package never holds a slash, and it is empty exactly when the path
/// holds nothing but slashes.
pub proof fn law_package_has_no_slash(path: Seq<char>)
    ensures
        forall|j: int| 0 <= j < package_of_path(path).len() ==> package_of_path(path)[j] != '/',
        package_of_path(path).len() == 0 <==> forall|j: int| 0 <= j < path.len() ==> path[j] == '/',
{
    lemma_strip_trailing_slashes(path);
    lemma_final_component(strip_trailing_slashes(path));
}

/// Stripping keeps a prefix, removes slashes only, and leaves none at the end.
pub proof fn lemma_strip_trailing_slashes(s: Seq<char>)
    ensures
        strip_trailing_slashes(s).len() <= s.len(),
        strip_trailing_slashes(s) == s.take(strip_trailing_slashes(s).len() as int),
        forall|j: int| strip_trailing_slashes(s).len() <= j < s.len() ==> s[j] == '/',
        strip_trailing_slashes(s).len() > 0 ==> strip_trailing_slashes(s).last() != '/',
    decreases s.len(),
{
    if s.len() > 0 && s.last() == '/' {
        let rest = s.drop_last();
        lemma_strip_trailing_slashes(rest);
        assert forall|j: int| strip_trailing_slashes(s).len() <= j < s.len() implies s[j]
            == '/' by {
            if j < rest.len() {
                assert(s[j] == rest[j]);
            }
        }
    }
}

/// The final component is a suffix without a slash, and it is empty exactly
/// when `s` is empty or ends in a slash.
pub proof fn lemma_final_component(s: Seq<char>)
    ensures
        final_component(s).len() <= s.len(),
        final_component(s) == s.skip(s.len() - final_component(s).len()),
        forall|j: int| 0 <= j < final_component(s).len() ==> final_component(s)[j] != '/',
        final_component(s).len() == 0 <==> (s.len() == 0 || s.last() == '/'),
    decreases s.len(),
{
    if s.len() > 0 && s.last() != '/' {
        lemma_final_component(s.drop_last());
    }
}

/// Extracts the package from an application data directory such as
/// `/data/user/0/<package>`: its last non-empty path segment.
pub fn extract_package_from_path(path: &str) -> (package: String)
    ensures
        package@ == package_of_path(path@),
{
    let chars = chars_of(path);
    let n: usize = chars.len();
    let mut end: usize = n;
    assert(chars@.take(n as int) =~= chars@);
    while end > 0 && chars[end - 1] == '/'
        invariant
            n == chars@.len(),
            end <= n,
            strip_trailing_slashes(chars@) == strip_trailing_slashes(chars@.take(end as int)),
        decreases end,
    {
        assert(chars@.take(end as int).drop_last() =~= chars@.take(end - 1));
        end = end - 1;
    }
    let ghost kept = chars@.take(end as int);
    let mut start: usize = end;
    assert(kept.take(end as int) =~= kept);
    while start > 0 && chars[start - 1] != '/'
        invariant
            n == chars@.len(),
            start <= end <= n,
            kept == chars@.take(end as int),
            final_component(kept) == final_component(kept.take(start as int)) + kept.subrange(
                start as int,
                end as int,
            ),
        decreases start,
    {
        assert(kept.take(start as int).drop_last() =~= kept.take(start - 1));
        start = start - 1;
    }
    assert(final_component(kept.take(start as int)) =~= Seq::<char>::empty());
    slice_chars(path, start, end)
}

/// The application data directory as the runtime returned it, if the read
/// succeeded.
pub fn get_app_data_dir_string(args: &AppSpecializeArgs) -> (dir: Option<String>)
    ensures
        opt_text(dir) == args@.app_data_dir,
{
    match &args.app_data_dir {
        Some(s) => Some(s.clone()),
        None => None,
    }
}

/// The process name from the specialization arguments alone: the nice name
/// where the runtime gave a non-empty one, else the package taken from a
/// non-empty data directory, else the empty string.
pub fn get_process_name_from_args_safe(args: &AppSpecializeArgs) -> (name: String)
    ensures
        name@ == name_from_args(args@),
{
    if let Some(nice_name) = &args.nice_name {
        if !nice_name.as_str().is_empty() {
            return nice_name.clone();
        }
    }
    if let Some(app_data_dir) = &args.app_data_dir {
        if !app_data_dir.as_str().is_empty() {
            return extract_package_from_path(app_data_dir.as_str());
        }
    }
    String::new()
}

/// The process name from the raw content of the kernel's command-line file:
/// everything before the first NUL byte, decoded as UTF-8. Content that
/// does not decode gives the empty string.
pub fn cmdline_name(raw: &[u8]) -> (name: String)
    ensures
        name@ == cmdline_text(raw@),
{
    let end = find_byte(raw, 0);
    let head = slice_subrange(raw, 0, end);
    decode_or_empty(head)
}

/// Resolves the identity of the process being specialized. The runtime's
/// nice name comes first, the package of its data directory second, and the
/// command line last, used only when the runtime yielded neither. Never
/// fails: with nothing to go by the identity is empty.
pub fn resolve(args: &AppSpecializeArgs, cmdline: &[u8]) -> (identity: String)
    ensures
        identity@ == resolved_identity(args@, cmdline@),
{
    let from_runtime = match &args.nice_name {
        Some(s) => !s.as_str().is_empty(),
        None => false,
    } || match &args.app_data_dir {
        Some(s) => !s.as_str().is_empty(),
        None => false,
    };
    if from_runtime {
        get_process_name_from_args_safe(args)
    } else {
        cmdline_name(cmdline)
    }
}

/// Resolving is a function of its sources: the same sources give the same
/// identity, however often they are resolved.
pub proof fn law_resolve_is_repeatable(
    first: ArgsView,
    second: ArgsView,
    first_cmdline: Seq<u8>,
    second_cmdline: Seq<u8>,
)
    requires
        first == second,
        first_cmdline == second_cmdline,
    ensures
        resolved_identity(first, first_cmdline) == resolved_identity(second, second_cmdline),
{
}

/// The order of fallback. A non-empty nice name is the identity. Without
/// one, a non-empty data directory decides, by its package. Without either,
/// the command line decides, and where that is empty too, so is the identity.
pub proof fn law_resolve_fallback_order(args: ArgsView, cmdline: Seq<u8>)
    ensures
        yields(args.nice_name) ==> resolved_identity(args, cmdline) == args.nice_name->0,
        !yields(args.nice_name) && yields(args.app_data_dir) ==> resolved_identity(args, cmdline)
            == package_of_path(args.app_data_dir->0),
        !yields(args.nice_name) && !yields(args.app_data_dir) ==> resolved_identity(args, cmdline)
            == cmdline_text(cmdline),
        !yields(args.nice_name) && !yields(args.app_data_dir) && cmdline.len() == 0
            ==> resolved_identity(args, cmdline).len() == 0,
{
}

} // verus!
