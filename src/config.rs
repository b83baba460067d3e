//! The settings file: `key=value` lines for the root, the template folder,
//! the color scheme and the workflow folders.
use vstd::prelude::*;
use crate::text::{lemma_first_at_range, chars_of, string_of, first_at, find_from, push_range, trim, trim_range, joined, path_join};
use crate::theme::{ColorScheme, scheme_key, scheme_of_key};

verus! {

/// The workflow stages that a note can be moved to, as folders below the root.
pub open spec fn default_destinations() -> Seq<Seq<char>> {
    seq!["Uploaded"@, "Rendered"@, "Ready to Upload"@, "Printed"@]
}

/// The names of the workflow stages.
pub fn default_move_destinations() -> (r: Vec<String>)
    ensures
        r@.len() == default_destinations().len(),
        forall|i: int| 0 <= i < r@.len() ==> #[trigger] r@[i]@ == default_destinations()[i],
{
    let r = vec![
        String::from_str("Uploaded"),
        String::from_str("Rendered"),
        String::from_str("Ready to Upload"),
        String::from_str("Printed"),
    ];
    r
}

/// The settings that the file holds.
pub struct Config {
    pub root: String,
    pub template_root: Option<String>,
    pub color_scheme: ColorScheme,
    pub workflow_folders: Vec<String>,
}

/// A decimal digit.
pub open spec fn digit(d: nat) -> char {
    if d == 0 { '0' } else if d == 1 { '1' } else if d == 2 { '2' } else if d == 3 { '3' }
    else if d == 4 { '4' } else if d == 5 { '5' } else if d == 6 { '6' } else if d == 7 { '7' }
    else if d == 8 { '8' } else { '9' }
}

/// `n` written in decimal.
pub open spec fn decimal(n: nat) -> Seq<char>
    decreases n,
{
    if n < 10 { seq![digit(n)] } else { decimal(n / 10).push(digit(n % 10)) }
}

fn digit_char(d: usize) -> (r: char)
    requires
        d < 10,
    ensures
        r == digit(d as nat),
{
    if d == 0 { '0' } else if d == 1 { '1' } else if d == 2 { '2' } else if d == 3 { '3' }
    else if d == 4 { '4' } else if d == 5 { '5' } else if d == 6 { '6' } else if d == 7 { '7' }
    else if d == 8 { '8' } else { '9' }
}

fn decimal_of(n: usize) -> (r: Vec<char>)
    ensures
        r@ == decimal(n as nat),
    decreases n,
{
    if n < 10 {
        let r = vec![digit_char(n)];
        assert(r@ =~= seq![digit(n as nat)]);
        r
    } else {
        let mut r = decimal_of(n / 10);
        r.push(digit_char(n % 10));
        r
    }
}

/// The key of the `i`-th workflow folder.
pub open spec fn workflow_key(i: nat) -> Seq<char> {
    "workflow_"@ + decimal(i)
}

/// The `workflow_<i>=<folder>` lines for the folders, by index.
pub open spec fn workflow_lines(f: Seq<Seq<char>>) -> Seq<char>
    decreases f.len(),
{
    if f.len() == 0 {
        Seq::empty()
    } else {
        workflow_lines(f.drop_last()) + workflow_key((f.len() - 1) as nat) + seq!['='] + f.last() + seq!['\n']
    }
}

/// The settings file's text.
pub open spec fn config_text(root: Seq<char>, template_root: Option<Seq<char>>, scheme: ColorScheme, folders: Seq<Seq<char>>) -> Seq<char> {
    "root="@ + root + seq!['\n'] + (match template_root {
        Some(t) => "template_root="@ + t + seq!['\n'],
        None => Seq::empty(),
    }) + "color_scheme="@ + scheme_key(scheme) + seq!['\n'] + workflow_lines(folders)
}

/// The texts of the strings.
pub open spec fn texts(v: Seq<String>) -> Seq<Seq<char>> {
    v.map_values(|s: String| s@)
}

fn push_str(out: &mut Vec<char>, s: &str)
    ensures
        final(out)@ == old(out)@ + s@,
{
    let c = chars_of(s);
    push_range(out, &c, 0, c.len());
    assert(c@.subrange(0, c@.len() as int) =~= c@);
}

/// The settings file's text: `root=`, then `template_root=` where one is
/// set, then `color_scheme=`, then one `workflow_<i>=` line per folder.
pub fn format_config(
    root: &String,
    template_root: &Option<String>,
    color_scheme: ColorScheme,
    workflow_folders: &Vec<String>,
) -> (r: String)
    ensures
        r@ == config_text(root@, match template_root {
            Some(t) => Some(t@),
            None => None,
        }, color_scheme, texts(workflow_folders@)),
{
    let mut out: Vec<char> = Vec::new();
    push_str(&mut out, "root=");
    push_str(&mut out, root.as_str());
    out.push('\n');
    let ghost head = out@;
    match template_root {
        Some(t) => {
            push_str(&mut out, "template_root=");
            push_str(&mut out, t.as_str());
            out.push('\n');
        },
        None => {},
    }
    push_str(&mut out, "color_scheme=");
    let key = color_scheme.to_string();
    push_str(&mut out, key.as_str());
    out.push('\n');
    let ghost before = out@;
    let mut i: usize = 0;
    proof {
        assert(texts(workflow_folders@).subrange(0, 0) =~= Seq::<Seq<char>>::empty());
        assert(out@ =~= before + workflow_lines(texts(workflow_folders@).subrange(0, 0)));
    }
    while i < workflow_folders.len()
        invariant
            i <= workflow_folders@.len(),
            out@ == before + workflow_lines(texts(workflow_folders@).subrange(0, i as int)),
        decreases workflow_folders.len() - i,
    {
        push_str(&mut out, "workflow_");
        let d = decimal_of(i);
        push_range(&mut out, &d, 0, d.len());
        out.push('=');
        push_str(&mut out, workflow_folders[i].as_str());
        out.push('\n');
        proof {
            let t = texts(workflow_folders@);
            assert(d@.subrange(0, d@.len() as int) =~= d@);
            assert(t.subrange(0, i + 1).drop_last() =~= t.subrange(0, i as int));
            assert(t.subrange(0, i + 1).last() == workflow_folders@[i as int]@);
            assert(out@ =~= before + workflow_lines(t.subrange(0, i + 1)));
        }
        i = i + 1;
    }
    proof {
        assert(texts(workflow_folders@).subrange(0, workflow_folders@.len() as int) =~= texts(workflow_folders@));
        assert(out@ =~= config_text(root@, match template_root {
            Some(t) => Some(t@),
            None => None,
        }, color_scheme, texts(workflow_folders@)));
    }
    string_of(out.as_slice())
}

/// Where the line that starts at `pos` ends.
pub open spec fn line_end(s: Seq<char>, pos: int) -> int {
    match first_at(s, seq!['\n'], pos) {
        Some(i) => i,
        None => s.len() as int,
    }
}

/// The value of `key` on a line `key=value`: what follows the first `=`.
pub open spec fn line_value(line: Seq<char>, key: Seq<char>) -> Option<Seq<char>> {
    match first_at(line, seq!['='], 0) {
        Some(k) => if 0 <= k < line.len() && line.subrange(0, k) == key {
            Some(line.skip(k + 1))
        } else {
            None
        },
        None => None,
    }
}

/// The value of `key` in the lines from `pos` on; a later line wins.
pub open spec fn lookup_from(s: Seq<char>, pos: int, key: Seq<char>) -> Option<Seq<char>>
    decreases s.len() - pos,
{
    if pos < 0 || pos >= s.len() {
        None
    } else {
        let e = line_end(s, pos);
        if pos <= e && e <= s.len() {
            let later = if e < s.len() { lookup_from(s, e + 1, key) } else { None };
            if later is Some { later } else { line_value(s.subrange(pos, e), key) }
        } else {
            None
        }
    }
}

/// The value of `key` in the text (the last line that sets it wins).
pub open spec fn lookup(s: Seq<char>, key: Seq<char>) -> Option<Seq<char>> {
    lookup_from(s, 0, key)
}

/// A setting's value without white space at either end.
pub open spec fn trimmed(v: Option<Seq<char>>) -> Option<Seq<char>> {
    match v {
        Some(t) => Some(trim(t)),
        None => None,
    }
}

fn value_in_line(s: &Vec<char>, a: usize, e: usize, key: &Vec<char>) -> (r: Option<Vec<char>>)
    requires
        a <= e <= s@.len(),
    ensures
        r matches Some(v) ==> line_value(s@.subrange(a as int, e as int), key@) == Some(v@),
        r is None ==> line_value(s@.subrange(a as int, e as int), key@) is None,
{
    let mut line: Vec<char> = Vec::new();
    push_range(&mut line, s, a, e);
    let eq = vec!['='];
    assert(eq@ =~= seq!['=']);
    match find_from(&line, &eq, 0) {
        None => None,
        Some(k) => {
            let mut same = k == key.len();
            let mut j: usize = 0;
            while same && j < k
                invariant
                    k < line@.len(),
                    same ==> k == key@.len(),
                    j <= k,
                    same ==> forall|x: int| 0 <= x < j ==> line@[x] == key@[x],
                    !same ==> line@.subrange(0, k as int) != key@,
                decreases k - j,
            {
                if line[j] != key[j] {
                    same = false;
                    assert(line@.subrange(0, k as int)[j as int] != key@[j as int]);
                }
                j = j + 1;
            }
            if same {
                assert(line@.subrange(0, k as int) =~= key@);
                let mut v: Vec<char> = Vec::new();
                push_range(&mut v, &line, k + 1, line.len());
                assert(v@ =~= line@.skip(k + 1));
                Some(v)
            } else {
                None
            }
        },
    }
}

/// The value of `key` in the settings text.
fn lookup_key(s: &Vec<char>, key: &str) -> (r: Option<Vec<char>>)
    ensures
        r matches Some(v) ==> lookup(s@, key@) == Some(v@),
        r is None ==> lookup(s@, key@) is None,
{
    let k = chars_of(key);
    let nl = vec!['\n'];
    assert(nl@ =~= seq!['\n']);
    let mut found: Option<Vec<char>> = None;
    let mut pos: usize = 0;
    while pos < s.len()
        invariant
            pos <= s@.len(),
            k@ == key@,
            nl@ == seq!['\n'],
            lookup(s@, key@) == (if lookup_from(s@, pos as int, key@) is Some {
                lookup_from(s@, pos as int, key@)
            } else {
                match found {
                    Some(v) => Some(v@),
                    None => None,
                }
            }),
        decreases s.len() - pos,
    {
        proof {
            lemma_first_at_range(s@, seq!['\n'], pos as int);
        }
        let e = match find_from(s, &nl, pos) {
            Some(e) => e,
            None => s.len(),
        };
        let here = value_in_line(s, pos, e, &k);
        if here.is_some() {
            found = here;
        }
        proof {
            if e < s@.len() {
            } else {
                assert(lookup_from(s@, e + 1, key@) is None);
            }
        }
        if e < s.len() {
            pos = e + 1;
        } else {
            pos = s.len();
        }
    }
    found
}

fn trimmed_value(v: &Option<Vec<char>>) -> (r: Option<String>)
    ensures
        r matches Some(t) ==> v matches Some(w) && t@ == trim(w@),
        r is None ==> v is None,
{
    match v {
        Some(w) => {
            let t = trim_range(w, 0, w.len());
            assert(w@.subrange(0, w@.len() as int) =~= w@);
            Some(string_of(t.as_slice()))
        },
        None => None,
    }
}

/// The root that the settings text names, `.` where it names none.
pub open spec fn config_root(s: Seq<char>) -> Seq<char> {
    match trimmed(lookup(s, "root"@)) {
        Some(r) => r,
        None => "."@,
    }
}

/// The settings in a settings text. Missing keys fall back to the root `.`,
/// no template folder, the Green scheme and, for each workflow stage, the
/// folder of that name below the root. Values lose white space at either end.
pub fn parse_config(content: &str) -> (r: Config)
    ensures
        r.root@ == config_root(content@),
        (match r.template_root {
            Some(t) => Some(t@),
            None => None,
        }) == trimmed(lookup(content@, "template_root"@)),
        r.color_scheme == (match trimmed(lookup(content@, "color_scheme"@)) {
            Some(v) => scheme_of_key(v),
            None => ColorScheme::Green,
        }),
        r.workflow_folders@.len() == default_destinations().len(),
        forall|i: int| 0 <= i < r.workflow_folders@.len() ==> #[trigger] r.workflow_folders@[i]@ == (match trimmed(lookup(content@, workflow_key(i as nat))) {
            Some(v) => v,
            None => joined(config_root(content@), default_destinations()[i]),
        }),
{
    let s = chars_of(content);
    let root = match trimmed_value(&lookup_key(&s, "root")) {
        Some(r) => r,
        None => String::from_str("."),
    };
    let template_root = trimmed_value(&lookup_key(&s, "template_root"));
    let color_scheme = match trimmed_value(&lookup_key(&s, "color_scheme")) {
        Some(v) => ColorScheme::from_string(v.as_str()),
        None => ColorScheme::Green,
    };
    let names = default_move_destinations();
    let mut workflow_folders: Vec<String> = Vec::new();
    let mut i: usize = 0;
    while i < names.len()
        invariant
            i <= names@.len(),
            names@.len() == default_destinations().len(),
            forall|j: int| 0 <= j < names@.len() ==> #[trigger] names@[j]@ == default_destinations()[j],
            root@ == config_root(content@),
            s@ == content@,
            workflow_folders@.len() == i,
            forall|j: int| 0 <= j < i ==> #[trigger] workflow_folders@[j]@ == (match trimmed(lookup(content@, workflow_key(j as nat))) {
                Some(v) => v,
                None => joined(config_root(content@), default_destinations()[j]),
            }),
        decreases names.len() - i,
    {
        let d = decimal_of(i);
        let mut key: Vec<char> = chars_of("workflow_");
        push_range(&mut key, &d, 0, d.len());
        assert(d@.subrange(0, d@.len() as int) =~= d@);
        let key_text = string_of(key.as_slice());
        let found = lookup_key(&s, key_text.as_str());
        let value = trimmed_value(&found);
        let folder = match value {
            Some(v) => v,
            None => path_join(root.as_str(), names[i].as_str()),
        };
        proof {
            assert(key_text@ =~= workflow_key(i as nat));
            assert(s@ == content@);
            match found {
                Some(w) => {
                    assert(lookup(content@, workflow_key(i as nat)) == Some(w@));
                },
                None => {
                    assert(lookup(content@, workflow_key(i as nat)) is None);
                },
            }
            assert(folder@ == (match trimmed(lookup(content@, workflow_key(i as nat))) {
                Some(v) => v,
                None => joined(config_root(content@), default_destinations()[i as int]),
            }));
        }
        let ghost prev = workflow_folders@;
        proof {
            assert(key_text@ =~= workflow_key(i as nat));
        }
        workflow_folders.push(folder);
        proof {
            assert forall|j: int| 0 <= j < i + 1 implies #[trigger] workflow_folders@[j]@ == (match trimmed(lookup(content@, workflow_key(j as nat))) {
                Some(v) => v,
                None => joined(config_root(content@), default_destinations()[j]),
            }) by {
                if j < i {
                    assert(workflow_folders@[j] == prev[j]);
                }
            }
        }
        i = i + 1;
    }
    Config { root, template_root, color_scheme, workflow_folders }
}

} // verus!
