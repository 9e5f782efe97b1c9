use vstd::prelude::*;
use crate::inventory::LocationEntry;

verus! {

/// A catalog entry as (root, category).
pub open spec fn entry_view(e: LocationEntry) -> (Seq<char>, Seq<char>) {
    (e.root@, e.category@)
}

pub open spec fn catalog_view(c: Seq<LocationEntry>) -> Seq<(Seq<char>, Seq<char>)> {
    c.map_values(|e: LocationEntry| entry_view(e))
}

/// The per-user temporary directory, when it is known.
pub open spec fn user_temp_group(temp: Option<Seq<char>>) -> Seq<(Seq<char>, Seq<char>)> {
    match temp {
        Some(t) => seq![(t, "Arquivos Temporários do Windows"@)],
        None => Seq::empty(),
    }
}

/// The fixed system maintenance folders.
pub open spec fn system_group() -> Seq<(Seq<char>, Seq<char>)> {
    seq![
        ("C:\\Windows\\Temp"@, "Arquivos Temporários do Sistema"@),
        ("C:\\Windows\\Prefetch"@, "Prefetch do Windows"@),
        ("C:\\Windows\\SoftwareDistribution\\Download"@, "Downloads do Windows Update"@),
        ("C:\\Windows\\Logs"@, "Logs do Windows"@),
        ("C:\\Windows\\Minidump"@, "Dumps de Crash"@),
        ("C:\\ProgramData\\Microsoft\\Windows\\WER"@, "Relatórios de Erro do Windows"@),
    ]
}

/// Browser and shell caches below the per-user local application data.
pub open spec fn local_group(base: Option<Seq<char>>) -> Seq<(Seq<char>, Seq<char>)> {
    match base {
        Some(b) => seq![
            (b + "\\Google\\Chrome\\User Data\\Default\\Cache"@, "Cache do Chrome"@),
            (b + "\\Microsoft\\Edge\\User Data\\Default\\Cache"@, "Cache do Edge"@),
            (b + "\\Mozilla\\Firefox\\Profiles"@, "Cache do Firefox"@),
            (b + "\\Microsoft\\Windows\\INetCache"@, "Cache do Internet Explorer"@),
            (b + "\\Microsoft\\Windows\\Explorer"@, "Miniaturas do Explorer"@),
        ],
        None => Seq::empty(),
    }
}

/// Chat and media application caches below the per-user roaming
/// application data.
pub open spec fn roaming_group(base: Option<Seq<char>>) -> Seq<(Seq<char>, Seq<char>)> {
    match base {
        Some(b) => seq![
            (b + "\\Discord\\Cache"@, "Cache do Discord"@),
            (b + "\\Discord\\Code Cache"@, "Code Cache do Discord"@),
            (b + "\\Spotify\\Storage"@, "Cache do Spotify"@),
        ],
        None => Seq::empty(),
    }
}

pub open spec fn opt_view(o: Option<String>) -> Option<Seq<char>> {
    match o {
        Some(s) => Some(s@),
        None => None,
    }
}

/// The whole catalog, in scan order.
pub open spec fn standard_catalog_spec(
    temp: Option<Seq<char>>,
    local_app_data: Option<Seq<char>>,
    app_data: Option<Seq<char>>,
) -> Seq<(Seq<char>, Seq<char>)> {
    user_temp_group(temp) + system_group() + local_group(local_app_data) + roaming_group(app_data)
}

fn push_entry(c: &mut Vec<LocationEntry>, root: String, category: &str)
    ensures
        final(c)@ == old(c)@.push(LocationEntry { root, category: final(c)@.last().category }),
        final(c)@.last().category@ == category@,
{
    c.push(LocationEntry { root, category: String::from_str(category) });
}

fn joined(base: &String, suffix: &str) -> (r: String)
    ensures
        r@ == base@ + suffix@,
{
    let mut r = base.clone();
    r.append(suffix);
    r
}

/// The scan targets, in scan order, given the per-user temporary, local
/// application data and roaming application data directories where known.
/// Entries below an unknown directory are left out.
pub fn standard_catalog(
    temp: &Option<String>,
    local_app_data: &Option<String>,
    app_data: &Option<String>,
) -> (c: Vec<LocationEntry>)
    ensures
        catalog_view(c@) == standard_catalog_spec(opt_view(*temp), opt_view(*local_app_data), opt_view(*app_data)),
{
    let mut c: Vec<LocationEntry> = Vec::new();
    match temp {
        Some(t) => {
            push_entry(&mut c, t.clone(), "Arquivos Temporários do Windows");
        },
        None => {},
    }
    assert(catalog_view(c@) =~= user_temp_group(opt_view(*temp)));
    let ghost g1 = catalog_view(c@);
    push_entry(&mut c, String::from_str("C:\\Windows\\Temp"), "Arquivos Temporários do Sistema");
    push_entry(&mut c, String::from_str("C:\\Windows\\Prefetch"), "Prefetch do Windows");
    push_entry(
        &mut c,
        String::from_str("C:\\Windows\\SoftwareDistribution\\Download"),
        "Downloads do Windows Update",
    );
    push_entry(&mut c, String::from_str("C:\\Windows\\Logs"), "Logs do Windows");
    push_entry(&mut c, String::from_str("C:\\Windows\\Minidump"), "Dumps de Crash");
    push_entry(
        &mut c,
        String::from_str("C:\\ProgramData\\Microsoft\\Windows\\WER"),
        "Relatórios de Erro do Windows",
    );
    assert(catalog_view(c@) =~= g1 + system_group());
    let ghost g2 = catalog_view(c@);
    match local_app_data {
        Some(b) => {
            push_entry(&mut c, joined(b, "\\Google\\Chrome\\User Data\\Default\\Cache"), "Cache do Chrome");
            push_entry(&mut c, joined(b, "\\Microsoft\\Edge\\User Data\\Default\\Cache"), "Cache do Edge");
            push_entry(&mut c, joined(b, "\\Mozilla\\Firefox\\Profiles"), "Cache do Firefox");
            push_entry(&mut c, joined(b, "\\Microsoft\\Windows\\INetCache"), "Cache do Internet Explorer");
            push_entry(&mut c, joined(b, "\\Microsoft\\Windows\\Explorer"), "Miniaturas do Explorer");
        },
        None => {},
    }
    assert(catalog_view(c@) =~= g2 + local_group(opt_view(*local_app_data)));
    let ghost g3 = catalog_view(c@);
    match app_data {
        Some(b) => {
            push_entry(&mut c, joined(b, "\\Discord\\Cache"), "Cache do Discord");
            push_entry(&mut c, joined(b, "\\Discord\\Code Cache"), "Code Cache do Discord");
            push_entry(&mut c, joined(b, "\\Spotify\\Storage"), "Cache do Spotify");
        },
        None => {},
    }
    assert(catalog_view(c@) =~= g3 + roaming_group(opt_view(*app_data)));
    c
}

} // verus!
