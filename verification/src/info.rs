//! The text of the package information popup.

use vstd::prelude::*;

use crate::bindings::{Info, InfoEntry, InstalledInfo};
use crate::text::{join, joined, views};

verus! {

/// The characters of an optional string; none when it is absent.
pub open spec fn opt_text(o: Option<String>) -> Seq<char> {
    match o {
        Some(s) => s@,
        None => Seq::empty(),
    }
}

/// The name shown for a package: its full name, else its name, else its
/// token, else `(unknown)`.
pub open spec fn primary_name(e: InfoEntry) -> Seq<char> {
    if e.full_name@.len() > 0 {
        e.full_name@
    } else if e.name@.len() > 0 {
        e.name@
    } else if e.token@.len() > 0 {
        e.token@
    } else {
        "(unknown)"@
    }
}

/// The installed versions that are given and not empty, in order.
pub open spec fn installed_versions(v: Seq<InstalledInfo>) -> Seq<Seq<char>>
    decreases v.len(),
{
    if v.len() == 0 {
        seq![]
    } else {
        let prev = installed_versions(v.drop_last());
        let t = opt_text(v.last().version);
        if t.len() > 0 {
            prev.push(t)
        } else {
            prev
        }
    }
}

/// `lines` with `line` added when `text` is not empty.
pub open spec fn push_if(lines: Seq<Seq<char>>, text: Seq<char>, line: Seq<char>) -> Seq<Seq<char>> {
    if text.len() > 0 {
        lines.push(line)
    } else {
        lines
    }
}

/// The lines that describe one package: its name, then its description,
/// homepage and installed versions where there are any, then its caveats
/// after a blank line.
pub open spec fn info_entry_lines(e: InfoEntry) -> Seq<Seq<char>> {
    let desc = opt_text(e.desc);
    let homepage = opt_text(e.homepage);
    let caveats = opt_text(e.caveats);
    let versions = joined(installed_versions(e.installed@), ", "@);
    let l1 = seq!["Name: "@ + primary_name(e)];
    let l2 = push_if(l1, desc, "Description: "@ + desc);
    let l3 = push_if(l2, homepage, "Homepage: "@ + homepage);
    let l4 = push_if(l3, versions, "Installed: "@ + versions);
    if caveats.len() > 0 {
        l4 + seq![Seq::empty(), "Caveats:"@, caveats]
    } else {
        l4
    }
}

/// The text that describes one package.
pub open spec fn info_entry_text(e: InfoEntry) -> Seq<char> {
    joined(info_entry_lines(e), "\n"@)
}

/// The text of the popup for what `brew info` reported: the packages one
/// after another, a blank line between them, or a note when there are none.
pub open spec fn info_text(info: Seq<InfoEntry>) -> Seq<char> {
    if info.len() == 0 {
        "No details returned from brew info"@
    } else {
        joined(info.map_values(|e: InfoEntry| info_entry_text(e)), "\n\n"@)
    }
}

fn opt_str(o: &Option<String>) -> (r: &str)
    ensures
        r@ == opt_text(*o),
{
    match o {
        Some(s) => s.as_str(),
        None => {
            proof {
                reveal_strlit("");
            }
            ""
        },
    }
}

fn labelled(label: &str, text: &str) -> (r: String)
    ensures
        r@ == label@ + text@,
{
    let mut r = String::from_str(label);
    r.append(text);
    r
}

/// The installed versions that are given and not empty.
fn installed_version_list(v: &Vec<InstalledInfo>) -> (r: Vec<String>)
    ensures
        views(r@) == installed_versions(v@),
{
    let mut r: Vec<String> = Vec::new();
    let mut i: usize = 0;
    while i < v.len()
        invariant
            i <= v@.len(),
            views(r@) == installed_versions(v@.take(i as int)),
        decreases v.len() - i,
    {
        assert(v@.take(i + 1).drop_last() =~= v@.take(i as int));
        assert(v@.take(i + 1).last() == v@[i as int]);
        let t = opt_str(&v[i].version);
        if !t.is_empty() {
            r.push(String::from_str(t));
        }
        i += 1;
        assert(views(r@) =~= installed_versions(v@.take(i as int)));
    }
    assert(v@.take(v@.len() as int) =~= v@);
    r
}

/// The text that describes one package.
pub fn format_info_entry(entry: &InfoEntry) -> (r: String)
    ensures
        r@ == info_entry_text(*entry),
{
    let primary = if !entry.full_name.as_str().is_empty() {
        entry.full_name.as_str()
    } else if !entry.name.as_str().is_empty() {
        entry.name.as_str()
    } else if !entry.token.as_str().is_empty() {
        entry.token.as_str()
    } else {
        "(unknown)"
    };
    let mut lines: Vec<String> = Vec::new();
    lines.push(labelled("Name: ", primary));
    let ghost l1 = views(lines@);
    assert(l1 =~= seq!["Name: "@ + primary_name(*entry)]);
    let desc = opt_str(&entry.desc);
    let homepage = opt_str(&entry.homepage);
    let caveats = opt_str(&entry.caveats);
    if !desc.is_empty() {
        lines.push(labelled("Description: ", desc));
    }
    let ghost l2 = views(lines@);
    assert(l2 =~= push_if(l1, desc@, "Description: "@ + desc@));
    if !homepage.is_empty() {
        lines.push(labelled("Homepage: ", homepage));
    }
    let ghost l3 = views(lines@);
    assert(l3 =~= push_if(l2, homepage@, "Homepage: "@ + homepage@));
    let found = installed_version_list(&entry.installed);
    let versions = join(&found, ", ");
    if !versions.as_str().is_empty() {
        lines.push(labelled("Installed: ", versions.as_str()));
    }
    let ghost l4 = views(lines@);
    assert(l4 =~= push_if(l3, versions@, "Installed: "@ + versions@));
    if !caveats.is_empty() {
        lines.push(String::new());
        lines.push(String::from_str("Caveats:"));
        lines.push(String::from_str(caveats));
        assert(views(lines@) =~= l4 + seq![Seq::empty(), "Caveats:"@, caveats@]);
    }
    join(&lines, "\n")
}

/// The text of the popup for what `brew info` reported.
pub fn format_info(info: Info) -> (r: String)
    ensures
        r@ == info_text(info@),
{
    if info.len() == 0 {
        return String::from_str("No details returned from brew info");
    }
    let mut parts: Vec<String> = Vec::new();
    let mut i: usize = 0;
    while i < info.len()
        invariant
            i <= info@.len(),
            views(parts@) == info@.take(i as int).map_values(|e: InfoEntry| info_entry_text(e)),
        decreases info.len() - i,
    {
        let ghost before = parts@;
        let t = format_info_entry(&info[i]);
        parts.push(t);
        assert(parts@ == before.push(t));
        assert(views(parts@) =~= views(before).push(t@));
        assert(info@.take(i + 1) =~= info@.take(i as int).push(info@[i as int]));
        i += 1;
        assert(views(parts@) =~= info@.take(i as int).map_values(|e: InfoEntry| info_entry_text(e)));
    }
    assert(info@.take(info@.len() as int) =~= info@);
    join(&parts, "\n\n")
}

} // verus!
