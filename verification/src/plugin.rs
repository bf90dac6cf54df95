use vstd::prelude::*;
use crate::mode::PluginMode;
use crate::text::push_char;

verus! {

/// One plugin as listed by the market or found on the boot drive.
#[derive(Debug)]
pub struct Plugin {
    pub name: String,
    pub size: String,
    pub version: String,
    pub author: String,
    pub describe: String,
    pub file: String,
    pub link: String,
}

/// Whether a character is Unicode white space (the White_Space property:
/// tab to carriage return, space, next line, no-break space, ogham space
/// mark, the en quad to hair space block, line and paragraph separators,
/// narrow no-break space, medium mathematical space, ideographic space).
pub open spec fn is_white_space(c: char) -> bool {
    let u = c as u32;
    (0x9 <= u <= 0xD) || u == 0x20 || u == 0x85 || u == 0xA0 || u == 0x1680 || (0x2000 <= u
        <= 0x200A) || u == 0x2028 || u == 0x2029 || u == 0x202F || u == 0x205F || u == 0x3000
}

/// Characters that may not stand in a Windows file name, and white space:
/// `generate_plugin_filename` replaces these by `_` in the description.
pub open spec fn is_unsafe_filename_char(c: char) -> bool {
    is_white_space(c) || c == '/' || c == '\\' || c == ':' || c == '*' || c == '?' || c == '"'
        || c == '<' || c == '>' || c == '|'
}

/// Whether a character must be replaced in a file name (white space or a
/// character Windows does not allow).
pub fn unsafe_filename_char(c: char) -> (r: bool)
    ensures
        r == is_unsafe_filename_char(c),
{
    let u = c as u32;
    let ws = (0x9 <= u && u <= 0xD) || u == 0x20 || u == 0x85 || u == 0xA0 || u == 0x1680 || (0x2000
        <= u && u <= 0x200A) || u == 0x2028 || u == 0x2029 || u == 0x202F || u == 0x205F || u
        == 0x3000;
    ws || c == '/' || c == '\\' || c == ':' || c == '*' || c == '?' || c == '"' || c == '<' || c
        == '>' || c == '|'
}

/// `s` with every unsafe file-name character replaced by `_`.
pub open spec fn sanitized(s: Seq<char>) -> Seq<char> {
    s.map_values(|c: char| if is_unsafe_filename_char(c) { '_' } else { c })
}

/// `a` and `b` with a single `_` between them.
pub open spec fn underscore_join(a: Seq<char>, b: Seq<char>) -> Seq<char> {
    a + seq!['_'] + b
}

/// The file name (without extension) under which a plugin is stored in the
/// given mode.
pub open spec fn plugin_filename(mode: PluginMode, p: Plugin) -> Seq<char> {
    let safe = sanitized(p.describe@);
    match mode {
        PluginMode::CloudPE => underscore_join(underscore_join(underscore_join(p.name@, p.version@), p.author@), safe),
        PluginMode::HotPE => if safe.len() == 0 {
            underscore_join(underscore_join(underscore_join(p.name@, p.author@), p.version@), p.name@)
        } else {
            underscore_join(underscore_join(underscore_join(p.name@, p.author@), p.version@), safe)
        },
        PluginMode::Edgeless => underscore_join(underscore_join(p.name@, p.version@), p.author@),
        PluginMode::Select => Seq::empty(),
    }
}

/// A sanitized description holds no unsafe file-name character and keeps
/// every safe character in place.
pub proof fn lemma_sanitized_is_safe(s: Seq<char>)
    ensures
        sanitized(s).len() == s.len(),
        forall|i: int| 0 <= i < s.len() ==> !is_unsafe_filename_char(#[trigger] sanitized(s)[i]),
        forall|i: int| 0 <= i < s.len() && !is_unsafe_filename_char(s[i]) ==> #[trigger] sanitized(s)[i] == s[i],
{
}

/// The file name of each source spelled out: Cloud-PE joins name, version,
/// author and the sanitized description (empty or not); HotPE joins name,
/// author, version and the sanitized description, or the name again when
/// the description is empty; Edgeless joins name, version and author; the
/// source selector names no file.
pub proof fn lemma_plugin_filename_fields(p: Plugin)
    ensures
        plugin_filename(PluginMode::CloudPE, p) == p.name@ + seq!['_'] + p.version@ + seq!['_'] + p.author@
            + seq!['_'] + sanitized(p.describe@),
        p.describe@.len() == 0 ==> plugin_filename(PluginMode::CloudPE, p) == p.name@ + seq!['_']
            + p.version@ + seq!['_'] + p.author@ + seq!['_'],
        p.describe@.len() > 0 ==> plugin_filename(PluginMode::HotPE, p) == p.name@ + seq!['_'] + p.author@
            + seq!['_'] + p.version@ + seq!['_'] + sanitized(p.describe@),
        p.describe@.len() == 0 ==> plugin_filename(PluginMode::HotPE, p) == p.name@ + seq!['_']
            + p.author@ + seq!['_'] + p.version@ + seq!['_'] + p.name@,
        plugin_filename(PluginMode::Edgeless, p) == p.name@ + seq!['_'] + p.version@ + seq!['_']
            + p.author@,
        plugin_filename(PluginMode::Select, p).len() == 0,
{
    let u: Seq<char> = seq!['_'];
    let safe = sanitized(p.describe@);
    assert(safe.len() == p.describe@.len());
    if p.describe@.len() == 0 {
        assert(safe =~= Seq::<char>::empty());
        assert(p.name@ + u + p.version@ + u + p.author@ + u + safe =~= p.name@ + u + p.version@ + u
            + p.author@ + u);
    }
    assert(plugin_filename(PluginMode::CloudPE, p) =~= p.name@ + u + p.version@ + u + p.author@ + u
        + safe);
    assert(plugin_filename(PluginMode::HotPE, p) =~= p.name@ + u + p.author@ + u + p.version@ + u + (
    if safe.len() == 0 {
        p.name@
    } else {
        safe
    }));
    assert(plugin_filename(PluginMode::Edgeless, p) =~= p.name@ + u + p.version@ + u + p.author@);
}

/// `s` with every unsafe file-name character replaced by `_`.
pub fn sanitize_filename_part(s: &str) -> (r: String)
    ensures
        r@ == sanitized(s@),
{
    let mut r = String::new();
    let n = s.unicode_len();
    let mut i: usize = 0;
    while i < n
        invariant
            n == s@.len(),
            i <= n,
            r@ == sanitized(s@.take(i as int)),
        decreases n - i,
    {
        let c = s.get_char(i);
        let d = if unsafe_filename_char(c) {
            '_'
        } else {
            c
        };
        push_char(&mut r, d);
        assert(s@.take(i + 1) =~= s@.take(i as int).push(c));
        assert(sanitized(s@.take(i + 1)) =~= sanitized(s@.take(i as int)).push(d));
        i = i + 1;
    }
    assert(s@.take(n as int) =~= s@);
    r
}

/// Appends `_` and then `part` to `r`.
fn push_part(r: &mut String, part: &str)
    ensures
        final(r)@ == old(r)@ + seq!['_'] + part@,
{
    proof { reveal_strlit("_"); }
    r.append("_");
    r.append(part);
}

/// Generates the file name (without extension) for a plugin: the fields the
/// mode asks for, joined by `_`, with the unsafe characters of the
/// description replaced by `_`.
pub fn generate_plugin_filename(mode: PluginMode, plugin: &Plugin) -> (r: String)
    ensures
        r@ == plugin_filename(mode, *plugin),
{
    let safe = sanitize_filename_part(plugin.describe.as_str());
    match mode {
        PluginMode::CloudPE => {
            let mut r = String::from_str(plugin.name.as_str());
            push_part(&mut r, plugin.version.as_str());
            push_part(&mut r, plugin.author.as_str());
            push_part(&mut r, safe.as_str());
            r
        },
        PluginMode::HotPE => {
            let mut r = String::from_str(plugin.name.as_str());
            push_part(&mut r, plugin.author.as_str());
            push_part(&mut r, plugin.version.as_str());
            if safe.unicode_len() == 0 {
                push_part(&mut r, plugin.name.as_str());
            } else {
                push_part(&mut r, safe.as_str());
            }
            r
        },
        PluginMode::Edgeless => {
            let mut r = String::from_str(plugin.name.as_str());
            push_part(&mut r, plugin.version.as_str());
            push_part(&mut r, plugin.author.as_str());
            r
        },
        PluginMode::Select => String::new(),
    }
}

} // verus!

verus! {

/// The meta line of a plugin card: version, size and author, four spaces
/// apart.
pub open spec fn spec_card_meta(p: Plugin) -> Seq<char> {
    "版本: "@ + p.version@ + "    大小: "@ + p.size@ + "    作者: "@ + p.author@
}

/// The meta line of a plugin card.
pub fn card_meta(p: &Plugin) -> (r: String)
    ensures
        r@ == spec_card_meta(*p),
{
    let mut r = String::from_str("版本: ");
    r.append(p.version.as_str());
    r.append("    大小: ");
    r.append(p.size.as_str());
    r.append("    作者: ");
    r.append(p.author.as_str());
    r
}

/// The folder plugins are installed into on a boot drive: the drive, a
/// backslash, and the source's plugin folder.
pub fn plugin_dir(drive: &str, folder: &str) -> (r: String)
    ensures
        r@ == drive@ + seq!['\\'] + folder@,
{
    proof { reveal_strlit("\\"); }
    let mut r = String::from_str(drive);
    r.append("\\");
    r.append(folder);
    r
}

/// A file name with its extension.
pub fn file_with_extension(stem: &str, ext: &str) -> (r: String)
    ensures
        r@ == stem@ + seq!['.'] + ext@,
{
    proof { reveal_strlit("."); }
    let mut r = String::from_str(stem);
    r.append(".");
    r.append(ext);
    r
}

} // verus!
