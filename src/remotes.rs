use vstd::prelude::*;

use crate::settings::GlobalSettings;

verus! {

/// What a list of strings holds, as character sequences.
pub open spec fn views(v: Seq<String>) -> Seq<Seq<char>> {
    v.map_values(|s: String| s@)
}

/// A line without the carriage return of a `\r\n` ending.
pub open spec fn strip_cr(line: Seq<char>) -> Seq<char> {
    if line.len() > 0 && line.last() == '\r' {
        line.drop_last()
    } else {
        line
    }
}

/// A white-space character, as Unicode's White_Space property lists them.
pub open spec fn is_white_space(c: char) -> bool {
    let u = c as u32;
    (0x09 <= u <= 0x0D) || u == 0x20 || u == 0x85 || u == 0xA0 || u == 0x1680 || (0x2000 <= u
        <= 0x200A) || u == 0x2028 || u == 0x2029 || u == 0x202F || u == 0x205F || u == 0x3000
}

/// A line that is empty or holds only white space.
pub open spec fn is_blank(line: Seq<char>) -> bool {
    forall|i: int| 0 <= i < line.len() ==> is_white_space(#[trigger] line[i])
}

/// Reading text from the start: the non-blank lines ended so far, and the line
/// still open.
pub open spec fn lohr_scan(s: Seq<char>) -> (Seq<Seq<char>>, Seq<char>)
    decreases s.len(),
{
    if s.len() == 0 {
        (seq![], seq![])
    } else {
        let (done, open) = lohr_scan(s.drop_last());
        if s.last() == '\n' {
            let line = strip_cr(open);
            (if is_blank(line) {
                done
            } else {
                done.push(line)
            }, seq![])
        } else {
            (done, open.push(s.last()))
        }
    }
}

/// The non-blank lines of a `.lohr` file, in order and as written: lines end at
/// `\n` or `\r\n`, and the last one needs no ending.
pub open spec fn lohr_entries(s: Seq<char>) -> Seq<Seq<char>> {
    let (done, open) = lohr_scan(s);
    if is_blank(open) {
        done
    } else {
        done.push(open)
    }
}

/// A remote stem expanded for one repository: a `/` unless the stem ends in one,
/// then the repository's directory name.
pub open spec fn stem_url(stem: Seq<char>, dir_name: Seq<char>) -> Seq<char> {
    if stem.len() > 0 && stem.last() == '/' {
        stem + dir_name
    } else {
        stem.push('/') + dir_name
    }
}

pub open spec fn stems_expanded(stems: Seq<Seq<char>>, dir_name: Seq<char>) -> Seq<Seq<char>> {
    stems.map_values(|s: Seq<char>| stem_url(s, dir_name))
}

/// The push targets of one job: the `.lohr` entries if there are any, else the
/// expanded default stems; then the expanded additional stems.
pub open spec fn resolved_remotes(
    lohr: Option<Seq<Seq<char>>>,
    default_remotes: Seq<Seq<char>>,
    additional_remotes: Seq<Seq<char>>,
    dir_name: Seq<char>,
) -> Seq<Seq<char>> {
    let base = if lohr is Some && lohr->Some_0.len() > 0 {
        lohr->Some_0
    } else {
        stems_expanded(default_remotes, dir_name)
    };
    base + stems_expanded(additional_remotes, dir_name)
}

pub open spec fn lohr_view(lohr: Option<Vec<String>>) -> Option<Seq<Seq<char>>> {
    match lohr {
        Some(v) => Some(views(v@)),
        None => None,
    }
}

proof fn lemma_views_push(v: Seq<String>, s: String)
    ensures
        views(v.push(s)) == views(v).push(s@),
{
    assert(views(v.push(s)) =~= views(v).push(s@));
}

pub fn is_white_space_char(c: char) -> (r: bool)
    ensures
        r == is_white_space(c),
{
    let u = c as u32;
    (0x09 <= u && u <= 0x0D) || u == 0x20 || u == 0x85 || u == 0xA0 || u == 0x1680 || (0x2000
        <= u && u <= 0x200A) || u == 0x2028 || u == 0x2029 || u == 0x202F || u == 0x205F || u
        == 0x3000
}

/// Whether the characters of `text` from `from` to `to` are all white space.
fn blank_between(text: &str, from: usize, to: usize) -> (r: bool)
    requires
        from <= to <= text@.len(),
    ensures
        r == is_blank(text@.subrange(from as int, to as int)),
{
    let mut i: usize = from;
    while i < to
        invariant
            from <= i <= to,
            to <= text@.len(),
            forall|k: int| from <= k < i ==> is_white_space(#[trigger] text@[k]),
        decreases to - i,
    {
        if !is_white_space_char(text.get_char(i)) {
            assert(!is_white_space(text@.subrange(from as int, to as int)[i - from]));
            return false;
        }
        i = i + 1;
    }
    assert forall|k: int| 0 <= k < to - from implies is_white_space(
        #[trigger] text@.subrange(from as int, to as int)[k],
    ) by {
        assert(text@.subrange(from as int, to as int)[k] == text@[from + k]);
    }
    true
}

/// The remotes listed in the content of a `.lohr` file: its non-blank lines.
pub fn lohr_remotes(content: &str) -> (r: Vec<String>)
    ensures
        views(r@) == lohr_entries(content@),
{
    let n = content.unicode_len();
    let mut out: Vec<String> = Vec::new();
    let mut start: usize = 0;
    let mut i: usize = 0;
    while i < n
        invariant
            n == content@.len(),
            start <= i <= n,
            lohr_scan(content@.take(i as int)) == (views(out@), content@.subrange(
                start as int,
                i as int,
            )),
        decreases n - i,
    {
        let c = content.get_char(i);
        let ghost prefix = content@.take(i + 1);
        assert(prefix.drop_last() =~= content@.take(i as int));
        assert(prefix.last() == c);
        if c == '\n' {
            let mut end = i;
            if i > start && content.get_char(i - 1) == '\r' {
                end = i - 1;
            }
            assert(content@.subrange(start as int, end as int) =~= strip_cr(
                content@.subrange(start as int, i as int),
            ));
            if !blank_between(content, start, end) {
                let line = String::from_str(content.substring_char(start, end));
                proof {
                    lemma_views_push(out@, line);
                }
                out.push(line);
            }
            start = i + 1;
            assert(content@.subrange(start as int, start as int) =~= seq![]);
        } else {
            assert(content@.subrange(start as int, i + 1) =~= content@.subrange(
                start as int,
                i as int,
            ).push(c));
        }
        i = i + 1;
    }
    assert(content@.take(n as int) =~= content@);
    if !blank_between(content, start, n) {
        let line = String::from_str(content.substring_char(start, n));
        proof {
            lemma_views_push(out@, line);
        }
        out.push(line);
    }
    out
}

/// A remote stem expanded for the repository in directory `dir_name`.
pub fn expand_stem(stem: &str, dir_name: &str) -> (r: String)
    ensures
        r@ == stem_url(stem@, dir_name@),
{
    let mut url = String::from_str(stem);
    let n = stem.unicode_len();
    if n == 0 || stem.get_char(n - 1) != '/' {
        proof {
            reveal_strlit("/");
        }
        url.append("/");
    }
    url.append(dir_name);
    url
}

fn push_expanded(out: &mut Vec<String>, stems: &Vec<String>, dir_name: &str)
    ensures
        views(final(out)@) == views(old(out)@) + stems_expanded(views(stems@), dir_name@),
{
    let ghost start = views(out@);
    let mut i: usize = 0;
    while i < stems.len()
        invariant
            i <= stems.len(),
            views(out@) == start + stems_expanded(views(stems@.take(i as int)), dir_name@),
        decreases stems.len() - i,
    {
        let url = expand_stem(stems[i].as_str(), dir_name);
        proof {
            lemma_views_push(out@, url);
            assert(views(stems@.take(i + 1)) =~= views(stems@.take(i as int)).push(stems@[i as int]@));
            assert(stems_expanded(views(stems@.take(i + 1)), dir_name@) =~= stems_expanded(
                views(stems@.take(i as int)),
                dir_name@,
            ).push(url@));
        }
        out.push(url);
        i = i + 1;
    }
    assert(stems@.take(stems.len() as int) =~= stems@);
}

/// The push targets of a job whose repository sits in directory `dir_name`, given
/// the entries read from its `.lohr` file (`None` when there is no such file).
pub fn get_remotes(lohr: Option<Vec<String>>, settings: &GlobalSettings, dir_name: &str) -> (r: Vec<
    String,
>)
    ensures
        views(r@) == resolved_remotes(
            lohr_view(lohr),
            views(settings.default_remotes@),
            views(settings.additional_remotes@),
            dir_name@,
        ),
{
    let mut remotes = match lohr {
        Some(entries) if entries.len() > 0 => entries,
        _ => {
            let mut expanded: Vec<String> = Vec::new();
            push_expanded(&mut expanded, &settings.default_remotes, dir_name);
            assert(views(expanded@) =~= stems_expanded(views(settings.default_remotes@), dir_name@));
            expanded
        },
    };
    push_expanded(&mut remotes, &settings.additional_remotes, dir_name);
    remotes
}

/// Whenever the `.lohr` file yields at least one entry, the default stems play no
/// part: the targets are those entries followed by the expanded additional stems.
pub proof fn lemma_lohr_overrides_defaults(
    lohr: Seq<Seq<char>>,
    default_remotes: Seq<Seq<char>>,
    other_default_remotes: Seq<Seq<char>>,
    additional_remotes: Seq<Seq<char>>,
    dir_name: Seq<char>,
)
    requires
        lohr.len() > 0,
    ensures
        resolved_remotes(Some(lohr), default_remotes, additional_remotes, dir_name)
            == resolved_remotes(Some(lohr), other_default_remotes, additional_remotes, dir_name),
        resolved_remotes(Some(lohr), default_remotes, additional_remotes, dir_name) == lohr
            + stems_expanded(additional_remotes, dir_name),
{
}

/// Without usable `.lohr` entries the targets are the expanded default stems,
/// then the expanded additional stems; the additional stems always come last.
pub proof fn lemma_defaults_without_lohr(
    lohr: Option<Seq<Seq<char>>>,
    default_remotes: Seq<Seq<char>>,
    additional_remotes: Seq<Seq<char>>,
    dir_name: Seq<char>,
)
    requires
        lohr is None || lohr->Some_0.len() == 0,
    ensures
        resolved_remotes(lohr, default_remotes, additional_remotes, dir_name) == stems_expanded(
            default_remotes,
            dir_name,
        ) + stems_expanded(additional_remotes, dir_name),
{
}

} // verus!
