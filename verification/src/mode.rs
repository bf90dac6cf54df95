use vstd::prelude::*;
use crate::text::owned;

verus! {

/// The plugin source the program runs against, or the source selector.
#[derive(Clone, Copy, Debug, PartialEq, Eq, Hash, Structural)]
pub enum PluginMode {
    CloudPE,
    HotPE,
    Edgeless,
    Select,
}

/// The colour mode kept in the configuration.
#[derive(Clone, Copy, Debug, PartialEq, Eq, Structural)]
pub enum ColorMode {
    System,
    Light,
    Dark,
}

} // verus!

verus! {

/// The mode a plain launch asks for: `--hpm` HotPE, `--edgeless` Edgeless,
/// `--select` the source selector, anything else (or nothing) Cloud-PE. Only
/// the first argument after the program name counts.
pub fn mode_from_args(args: &Vec<String>) -> (r: PluginMode)
    ensures
        r == (if args@.len() > 1 {
            if args@[1]@ == "--hpm"@ {
                PluginMode::HotPE
            } else if args@[1]@ == "--edgeless"@ {
                PluginMode::Edgeless
            } else if args@[1]@ == "--select"@ {
                PluginMode::Select
            } else {
                PluginMode::CloudPE
            }
        } else {
            PluginMode::CloudPE
        }),
{
    if args.len() > 1 {
        let a = &args[1];
        if *a == owned("--hpm") {
            PluginMode::HotPE
        } else if *a == owned("--edgeless") {
            PluginMode::Edgeless
        } else if *a == owned("--select") {
            PluginMode::Select
        } else {
            PluginMode::CloudPE
        }
    } else {
        PluginMode::CloudPE
    }
}

/// How the program resolves its theme from the configured colour mode.
#[derive(Clone, Copy, Debug, PartialEq, Eq, Structural)]
pub enum ThemeChoice {
    /// Follow the system's light/dark setting.
    FollowSystem,
    Light,
    Dark,
}

/// The theme for a colour mode.
pub fn resolve_theme(mode: ColorMode) -> (r: ThemeChoice)
    ensures
        r == (match mode {
            ColorMode::System => ThemeChoice::FollowSystem,
            ColorMode::Light => ThemeChoice::Light,
            ColorMode::Dark => ThemeChoice::Dark,
        }),
{
    match mode {
        ColorMode::System => ThemeChoice::FollowSystem,
        ColorMode::Light => ThemeChoice::Light,
        ColorMode::Dark => ThemeChoice::Dark,
    }
}

/// Whether a path starts with `X:` (the drive a Windows PE boots from).
pub open spec fn on_pe_drive(path: Seq<char>) -> bool {
    path.len() >= 2 && path[0] == 'X' && path[1] == ':'
}

/// Whether the program runs inside a Windows PE: an `X:` or `WINPE`
/// environment variable is set, or the working directory is on drive `X:`
/// (`cwd` is `None` when it is unknown or not valid Unicode).
pub fn is_pe_environment(has_x_var: bool, has_winpe_var: bool, cwd: Option<&str>) -> (r: bool)
    ensures
        r == (has_x_var || has_winpe_var || match cwd {
            Some(p) => on_pe_drive(p@),
            None => false,
        }),
{
    if has_x_var || has_winpe_var {
        return true;
    }
    match cwd {
        Some(p) => {
            let n = p.unicode_len();
            n >= 2 && p.get_char(0) == 'X' && p.get_char(1) == ':'
        },
        None => false,
    }
}

/// Whether a character is an ASCII decimal digit.
pub open spec fn is_digit(c: char) -> bool {
    '0' as u32 <= c as u32 <= '9' as u32
}

/// Value of a decimal digit.
pub open spec fn digit_value(c: char) -> nat {
    (c as u32 - '0' as u32) as nat
}

/// Value of a string of decimal digits.
pub open spec fn digits_value(d: Seq<char>) -> nat
    decreases d.len(),
{
    if d.len() == 0 {
        0
    } else {
        digits_value(d.drop_last()) * 10 + digit_value(d.last())
    }
}

/// The digits of a number text: without one leading `+`.
pub open spec fn number_digits(s: Seq<char>) -> Seq<char> {
    if s.len() > 0 && s[0] == '+' { s.drop_first() } else { s }
}

/// std's `usize` parsing: an optional `+`, then at least one decimal digit,
/// with a value that fits.
pub open spec fn spec_parse_usize(s: Seq<char>) -> Option<usize> {
    let d = number_digits(s);
    if d.len() == 0 || !(forall|i: int| 0 <= i < d.len() ==> is_digit(#[trigger] d[i])) {
        None
    } else if digits_value(d) > usize::MAX {
        None
    } else {
        Some(digits_value(d) as usize)
    }
}

proof fn lemma_prefix_value_le(d: Seq<char>, k: int)
    requires
        0 <= k <= d.len(),
    ensures
        digits_value(d.take(k)) <= digits_value(d),
    decreases d.len(),
{
    if k < d.len() {
        lemma_prefix_value_le(d.drop_last(), k);
        assert(d.drop_last().take(k) =~= d.take(k));
    } else {
        assert(d.take(k) =~= d);
    }
}

/// Parses a number the way std parses a `usize` from text.
pub fn parse_usize(s: &str) -> (r: Option<usize>)
    ensures
        r == spec_parse_usize(s@),
{
    let n = s.unicode_len();
    if n == 0 {
        return None;
    }
    let start: usize = if s.get_char(0) == '+' { 1 } else { 0 };
    let ghost d = number_digits(s@);
    assert(d =~= s@.subrange(start as int, n as int));
    if start == n {
        return None;
    }
    let mut v: usize = 0;
    let mut i: usize = start;
    while i < n
        invariant
            n == s@.len(),
            start <= i <= n,
            d =~= s@.subrange(start as int, n as int),
            d == number_digits(s@),
            forall|j: int| 0 <= j < i - start ==> is_digit(#[trigger] d[j]),
            v as nat == digits_value(d.take(i - start)),
        decreases n - i,
    {
        let c = s.get_char(i);
        let cv = c as u32;
        assert(d[i - start] == c);
        if cv < '0' as u32 || cv > '9' as u32 {
            assert(!is_digit(d[i - start]));
            return None;
        }
        let dig = (cv - '0' as u32) as usize;
        assert(d.take(i - start + 1).drop_last() =~= d.take(i - start));
        assert(d.take(i - start + 1).last() == c);
        assert(digit_value(c) == dig);
        if v > (usize::MAX - dig) / 10 {
            proof {
                assert(digits_value(d.take(i - start + 1)) == v * 10 + dig);
                assert(v * 10 + dig > usize::MAX) by (nonlinear_arith)
                    requires
                        v > (usize::MAX - dig) / 10,
                        dig <= 9,
                ;
                lemma_prefix_value_le(d, i - start + 1);
                assert(digits_value(d) > usize::MAX);
            }
            return None;
        }
        assert(v * 10 + dig <= usize::MAX) by (nonlinear_arith)
            requires
                v <= (usize::MAX - dig) / 10,
                dig <= 9,
        ;
        v = v * 10 + dig;
        i = i + 1;
    }
    assert(d.take(n - start) =~= d);
    Some(v)
}

/// An off-screen capture asked for with `--shot <png> [page] [light]`.
#[derive(Debug)]
pub struct ShotRequest {
    /// The PNG file to write (`shot.png` when not given).
    pub path: String,
    /// 0–2 a page of the main window, 3 the source selector, 4 the loading
    /// window (0 when not given or not a number).
    pub page: usize,
    /// Light theme instead of dark.
    pub light: bool,
    /// Plugin source to show.
    pub mode: PluginMode,
}

/// Whether some argument equals `word`.
pub open spec fn has_arg(argv: Seq<String>, word: Seq<char>) -> bool {
    exists|i: int| 0 <= i < argv.len() && #[trigger] argv[i]@ == word
}

fn find_arg(argv: &Vec<String>, word: &str) -> (r: Option<usize>)
    ensures
        r matches Some(p) ==> p < argv@.len() && argv@[p as int]@ == word@ && forall|j: int| 0 <= j < p ==> #[trigger] argv@[j]@ != word@,
        r is None ==> !has_arg(argv@, word@),
{
    let w = owned(word);
    let mut k: usize = 0;
    while k < argv.len()
        invariant
            k <= argv@.len(),
            w@ == word@,
            forall|j: int| 0 <= j < k ==> #[trigger] argv@[j]@ != word@,
        decreases argv.len() - k,
    {
        if argv[k] == w {
            return Some(k);
        }
        k = k + 1;
    }
    None
}

/// The capture request in the program's arguments, if any: the arguments
/// after the first `--shot` give the file and the page; `light`, `--hpm` and
/// `--edgeless` anywhere choose the theme and the source.
pub fn shot_request(argv: &Vec<String>) -> (r: Option<ShotRequest>)
    ensures
        r is Some <==> has_arg(argv@, "--shot"@),
        r matches Some(q) ==> {
            let pos = choose|p: int| 0 <= p < argv@.len() && argv@[p]@ == "--shot"@ && forall|j: int| 0 <= j < p ==> #[trigger] argv@[j]@ != "--shot"@;
            &&& q.path@ == (if pos + 1 < argv@.len() { argv@[pos + 1]@ } else { "shot.png"@ })
            &&& q.page == (if pos + 2 < argv@.len() {
                match spec_parse_usize(argv@[pos + 2]@) {
                    Some(v) => v,
                    None => 0,
                }
            } else {
                0
            })
            &&& q.light == has_arg(argv@, "light"@)
            &&& q.mode == (if has_arg(argv@, "--hpm"@) {
                PluginMode::HotPE
            } else if has_arg(argv@, "--edgeless"@) {
                PluginMode::Edgeless
            } else {
                PluginMode::CloudPE
            })
        },
{
    let pos = match find_arg(argv, "--shot") {
        Some(p) => p,
        None => return None,
    };
    let ghost spec_pos = choose|p: int| 0 <= p < argv@.len() && argv@[p]@ == "--shot"@ && forall|j: int| 0 <= j < p ==> #[trigger] argv@[j]@ != "--shot"@;
    proof {
        assert(0 <= pos < argv@.len() && argv@[pos as int]@ == "--shot"@ && forall|j: int| 0 <= j < pos ==> #[trigger] argv@[j]@ != "--shot"@);
        assert(spec_pos == pos as int) by {
            if spec_pos < pos {
                assert(argv@[spec_pos]@ != "--shot"@);
            }
            if pos < spec_pos {
                assert(argv@[pos as int]@ != "--shot"@);
            }
        }
    }
    let rest = argv.len() - pos;
    let path = if rest > 1 { argv[pos + 1].clone() } else { owned("shot.png") };
    let page = if rest > 2 {
        match parse_usize(argv[pos + 2].as_str()) {
            Some(v) => v,
            None => 0,
        }
    } else {
        0
    };
    let light = find_arg(argv, "light").is_some();
    let mode = if find_arg(argv, "--hpm").is_some() {
        PluginMode::HotPE
    } else if find_arg(argv, "--edgeless").is_some() {
        PluginMode::Edgeless
    } else {
        PluginMode::CloudPE
    };
    Some(ShotRequest { path, page, light, mode })
}

/// What an off-screen capture renders.
#[derive(Clone, Copy, Debug, PartialEq, Eq, Structural)]
pub enum ShotTarget {
    /// The source selector, in its 400×300 window.
    Selector,
    /// The loading window, at 1024×630.
    Loading,
    /// The main window on the given page, at 1024×630.
    Main(usize),
}

/// What page number `page` of a capture renders.
pub fn shot_target(page: usize) -> (r: ShotTarget)
    ensures
        r == (if page == 3 {
            ShotTarget::Selector
        } else if page == 4 {
            ShotTarget::Loading
        } else {
            ShotTarget::Main(page)
        }),
{
    if page == 3 {
        ShotTarget::Selector
    } else if page == 4 {
        ShotTarget::Loading
    } else {
        ShotTarget::Main(page)
    }
}

/// Logical size (width, height) of a capture: the selector's small window,
/// or the main window's default size.
pub fn shot_size(target: ShotTarget) -> (r: (u32, u32))
    ensures
        r == (if target == ShotTarget::Selector { (400u32, 300u32) } else { (1024u32, 630u32) }),
{
    match target {
        ShotTarget::Selector => (400, 300),
        _ => (1024, 630),
    }
}

} // verus!

verus! {

/// Strings joined with single spaces.
pub open spec fn space_joined(parts: Seq<Seq<char>>) -> Seq<char>
    decreases parts.len(),
{
    if parts.len() == 0 {
        Seq::empty()
    } else if parts.len() == 1 {
        parts[0]
    } else {
        space_joined(parts.drop_last()) + seq![' '] + parts.last()
    }
}

/// The views of a list of strings.
pub open spec fn views(v: Seq<String>) -> Seq<Seq<char>> {
    v.map_values(|s: String| s@)
}

/// The command line `start` runs to relaunch the program elevated: the
/// executable in quotes followed by the program's own arguments.
pub fn runas_command(exe: &str, args: &Vec<String>) -> (r: String)
    ensures
        r@ == "runas /user:Administrator \""@ + exe@ + "\" "@ + space_joined(views(args@)),
{
    let mut r = owned("runas /user:Administrator \"");
    r.append(exe);
    r.append("\" ");
    let ghost head = r@;
    let mut k: usize = 0;
    while k < args.len()
        invariant
            k <= args@.len(),
            r@ == head + space_joined(views(args@.take(k as int))),
        decreases args.len() - k,
    {
        proof {
            assert(views(args@.take(k + 1)).drop_last() =~= views(args@.take(k as int)));
            assert(views(args@.take(k + 1)).last() == args@[k as int]@);
            if k == 0 {
                assert(views(args@.take(1)) =~= seq![args@[0]@]);
            }
        }
        let ghost before = r@;
        if k > 0 {
            r.append(" ");
        }
        r.append(args[k].as_str());
        proof {
            let vk = views(args@.take(k + 1));
            if k > 0 {
                reveal_strlit(" ");
                assert(" "@ =~= seq![' ']);
                assert(vk.drop_last() =~= views(args@.take(k as int)));
                assert(space_joined(vk) == space_joined(vk.drop_last()) + seq![' '] + vk.last());
                assert(r@ =~= before + seq![' '] + args@[k as int]@);
                assert(r@ =~= head + space_joined(vk));
            } else {
                assert(space_joined(vk) == vk[0]);
                assert(r@ =~= head + space_joined(vk));
            }
        }
        k = k + 1;
    }
    assert(args@.take(args@.len() as int) =~= args@);
    r
}

} // verus!
