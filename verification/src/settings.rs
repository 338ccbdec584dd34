//! Display preferences that the library decides on: the theme and the fonts
//! that may be chosen.

use vstd::prelude::*;

verus! {

broadcast use vstd::string::group_string_axioms;

/// Colour theme.
#[derive(Clone, Copy, PartialEq, Eq, Debug, Structural)]
pub enum ThemeMode {
    /// Follow the system's dark or light setting.
    System,
    Dark,
    Light,
}

/// The label shown for a theme in the settings window.
pub open spec fn theme_label(m: ThemeMode) -> Seq<char> {
    match m {
        ThemeMode::System => "OSに追従"@,
        ThemeMode::Dark => "ダーク"@,
        ThemeMode::Light => "ライト"@,
    }
}

impl ThemeMode {
    pub fn label(self) -> (r: &'static str)
        ensures
            r@ == theme_label(self),
    {
        match self {
            ThemeMode::System => "OSに追従",
            ThemeMode::Dark => "ダーク",
            ThemeMode::Light => "ライト",
        }
    }
}

impl Default for ThemeMode {
    fn default() -> (r: ThemeMode)
        ensures
            r == ThemeMode::System,
    {
        ThemeMode::System
    }
}

/// The fonts offered, as (display name, system font file) pairs, in the
/// order the settings window lists them.
pub open spec fn catalog() -> Seq<(Seq<char>, Seq<char>)> {
    seq![
        ("Yu Gothic"@, "C:\\Windows\\Fonts\\YuGothR.ttc"@),
        ("Meiryo"@, "C:\\Windows\\Fonts\\meiryo.ttc"@),
        ("MS Gothic"@, "C:\\Windows\\Fonts\\msgothic.ttc"@),
        ("MS Mincho"@, "C:\\Windows\\Fonts\\msmincho.ttc"@),
        ("BIZ UDGothic"@, "C:\\Windows\\Fonts\\BIZ-UDGothicR.ttc"@),
        ("BIZ UDMincho"@, "C:\\Windows\\Fonts\\BIZ-UDMinchoM.ttc"@),
    ]
}

/// The texts of a list of font pairs.
pub open spec fn pairs_view(v: Seq<(&'static str, &'static str)>) -> Seq<(Seq<char>, Seq<char>)> {
    v.map_values(|p: (&'static str, &'static str)| (p.0@, p.1@))
}

/// The available fonts, as (display name, system font file) pairs.
pub fn font_catalog() -> (r: Vec<(&'static str, &'static str)>)
    ensures
        pairs_view(r@) == catalog(),
{
    let r = vec![
        ("Yu Gothic", "C:\\Windows\\Fonts\\YuGothR.ttc"),
        ("Meiryo", "C:\\Windows\\Fonts\\meiryo.ttc"),
        ("MS Gothic", "C:\\Windows\\Fonts\\msgothic.ttc"),
        ("MS Mincho", "C:\\Windows\\Fonts\\msmincho.ttc"),
        ("BIZ UDGothic", "C:\\Windows\\Fonts\\BIZ-UDGothicR.ttc"),
        ("BIZ UDMincho", "C:\\Windows\\Fonts\\BIZ-UDMinchoM.ttc"),
    ];
    assert(pairs_view(r@) =~= catalog());
    r
}

/// The file of the first entry of `cat` whose name is `name`.
pub open spec fn path_named(cat: Seq<(Seq<char>, Seq<char>)>, name: Seq<char>) -> Option<Seq<char>>
    decreases cat.len(),
{
    if cat.len() == 0 {
        None
    } else if cat[0].0 == name {
        Some(cat[0].1)
    } else {
        path_named(cat.drop_first(), name)
    }
}

/// Whether two strings hold the same characters.
pub fn str_equal(a: &str, b: &str) -> (r: bool)
    ensures
        r == (a@ == b@),
{
    let x = String::from_str(a);
    let y = String::from_str(b);
    x == y
}

/// The font file of the catalog entry named `name`, if there is one.
pub fn font_path_for(name: &str) -> (r: Option<&'static str>)
    ensures
        match path_named(catalog(), name@) {
            Some(p) => r matches Some(q) && q@ == p,
            None => r is None,
        },
{
    let cat = font_catalog();
    let n = cat.len();
    let mut i: usize = 0;
    assert(pairs_view(cat@).skip(0) =~= pairs_view(cat@));
    while i < n
        invariant
            n == cat@.len(),
            i <= n,
            pairs_view(cat@) == catalog(),
            path_named(catalog(), name@) == path_named(pairs_view(cat@).skip(i as int), name@),
        decreases n - i,
    {
        let ghost rest = pairs_view(cat@).skip(i as int);
        assert(rest.drop_first() =~= pairs_view(cat@).skip(i + 1));
        assert(rest[0] == pairs_view(cat@)[i as int]);
        let (entry_name, entry_path) = cat[i];
        if str_equal(entry_name, name) {
            return Some(entry_path);
        }
        i = i + 1;
    }
    assert(pairs_view(cat@).skip(n as int).len() == 0);
    None
}

/// The catalog entries whose font file is present, in catalog order.
/// `installed[i]` tells whether the file of entry `i` exists; an entry
/// with no flag counts as missing.
pub open spec fn installed_fonts(
    cat: Seq<(Seq<char>, Seq<char>)>,
    installed: Seq<bool>,
    n: int,
) -> Seq<(Seq<char>, Seq<char>)>
    decreases n,
{
    if n <= 0 {
        Seq::empty()
    } else {
        let before = installed_fonts(cat, installed, n - 1);
        if n - 1 < installed.len() && installed[n - 1] {
            before.push(cat[n - 1])
        } else {
            before
        }
    }
}

/// The fonts of the catalog that are present on this machine.
pub fn available_fonts(installed: &Vec<bool>) -> (r: Vec<(&'static str, &'static str)>)
    ensures
        pairs_view(r@) == installed_fonts(catalog(), installed@, catalog().len() as int),
{
    let cat = font_catalog();
    let mut r: Vec<(&'static str, &'static str)> = Vec::new();
    let n = cat.len();
    let mut i: usize = 0;
    while i < n
        invariant
            n == cat@.len(),
            i <= n,
            pairs_view(cat@) == catalog(),
            pairs_view(r@) == installed_fonts(catalog(), installed@, i as int),
        decreases n - i,
    {
        if i < installed.len() && installed[i] {
            r.push(cat[i]);
            assert(pairs_view(r@) =~= installed_fonts(catalog(), installed@, i as int).push(
                catalog()[i as int],
            ));
        }
        i = i + 1;
    }
    r
}

/// Every element of `installed_fonts(cat, installed, n)` is an entry of the
/// first `n` of `cat`.
pub proof fn lemma_installed_fonts_from_catalog(
    cat: Seq<(Seq<char>, Seq<char>)>,
    installed: Seq<bool>,
    n: int,
    k: int,
)
    requires
        0 <= n <= cat.len(),
        0 <= k < installed_fonts(cat, installed, n).len(),
    ensures
        exists|i: int| 0 <= i < n && #[trigger] cat[i] == installed_fonts(cat, installed, n)[k],
    decreases n,
{
    if n > 0 {
        let before = installed_fonts(cat, installed, n - 1);
        if k < before.len() {
            lemma_installed_fonts_from_catalog(cat, installed, n - 1, k);
            let i = choose|i: int| 0 <= i < n - 1 && #[trigger] cat[i] == before[k];
            assert(cat[i] == installed_fonts(cat, installed, n)[k]);
        } else {
            assert(installed_fonts(cat, installed, n)[k] == cat[n - 1]);
        }
    }
}

/// The catalog's names are distinct: each name finds its own file.
pub proof fn lemma_catalog_names_find_their_files(i: int)
    requires
        0 <= i < catalog().len(),
    ensures
        path_named(catalog(), catalog()[i].0) == Some(catalog()[i].1),
{
    reveal_strlit("Yu Gothic");
    reveal_strlit("Meiryo");
    reveal_strlit("MS Gothic");
    reveal_strlit("MS Mincho");
    reveal_strlit("BIZ UDGothic");
    reveal_strlit("BIZ UDMincho");
    reveal_with_fuel(path_named, 7);
    let c = catalog();
    assert(c[0].0[0] == 'Y' && c[2].0[0] == 'M' && c[3].0[0] == 'M' && c[4].0[0] == 'B');
    assert(c[2].0[3] == 'G' && c[3].0[3] == 'M');
    assert(c[4].0[6] == 'G' && c[5].0[6] == 'M');
    assert(c[1].0.len() == 6 && c[0].0.len() == 9 && c[4].0.len() == 12);
    assert(c.drop_first() =~= seq![c[1], c[2], c[3], c[4], c[5]]);
    assert(c.drop_first().drop_first() =~= seq![c[2], c[3], c[4], c[5]]);
    assert(c.drop_first().drop_first().drop_first() =~= seq![c[3], c[4], c[5]]);
    assert(c.drop_first().drop_first().drop_first().drop_first() =~= seq![c[4], c[5]]);
    assert(c.drop_first().drop_first().drop_first().drop_first().drop_first() =~= seq![c[5]]);
}

/// Every font offered as available is found again by its name, with its
/// file: `font_path_for(n) == Some(p)` for each `(n, p)` of `available_fonts`.
pub proof fn available_fonts_are_found_by_name(installed: Seq<bool>, k: int)
    requires
        0 <= k < installed_fonts(catalog(), installed, catalog().len() as int).len(),
    ensures
        path_named(catalog(), installed_fonts(catalog(), installed, catalog().len() as int)[k].0)
            == Some(installed_fonts(catalog(), installed, catalog().len() as int)[k].1),
{
    lemma_installed_fonts_from_catalog(catalog(), installed, catalog().len() as int, k);
    let i = choose|i: int|
        0 <= i < catalog().len() && #[trigger] catalog()[i] == installed_fonts(
            catalog(),
            installed,
            catalog().len() as int,
        )[k];
    lemma_catalog_names_find_their_files(i);
}

/// Each font name of the catalog leads to its own system font file:
/// Yu Gothic to YuGothR.ttc, Meiryo to meiryo.ttc, MS Gothic to
/// msgothic.ttc, MS Mincho to msmincho.ttc, BIZ UDGothic to
/// BIZ-UDGothicR.ttc and BIZ UDMincho to BIZ-UDMinchoM.ttc.
pub proof fn catalog_names_lead_to_their_files()
    ensures
        path_named(catalog(), "Yu Gothic"@) == Some("C:\\Windows\\Fonts\\YuGothR.ttc"@),
        path_named(catalog(), "Meiryo"@) == Some("C:\\Windows\\Fonts\\meiryo.ttc"@),
        path_named(catalog(), "MS Gothic"@) == Some("C:\\Windows\\Fonts\\msgothic.ttc"@),
        path_named(catalog(), "MS Mincho"@) == Some("C:\\Windows\\Fonts\\msmincho.ttc"@),
        path_named(catalog(), "BIZ UDGothic"@) == Some("C:\\Windows\\Fonts\\BIZ-UDGothicR.ttc"@),
        path_named(catalog(), "BIZ UDMincho"@) == Some("C:\\Windows\\Fonts\\BIZ-UDMinchoM.ttc"@),
{
    lemma_catalog_names_find_their_files(0);
    lemma_catalog_names_find_their_files(1);
    lemma_catalog_names_find_their_files(2);
    lemma_catalog_names_find_their_files(3);
    lemma_catalog_names_find_their_files(4);
    lemma_catalog_names_find_their_files(5);
}

/// No two fonts of the catalog share a file: distinct entries have
/// distinct names and distinct files.
pub proof fn catalog_entries_are_distinct(i: int, j: int)
    requires
        0 <= i < catalog().len(),
        0 <= j < catalog().len(),
        i != j,
    ensures
        catalog()[i].0 != catalog()[j].0,
        catalog()[i].1 != catalog()[j].1,
{
    reveal_strlit("Yu Gothic");
    reveal_strlit("Meiryo");
    reveal_strlit("MS Gothic");
    reveal_strlit("MS Mincho");
    reveal_strlit("BIZ UDGothic");
    reveal_strlit("BIZ UDMincho");
    reveal_strlit("C:\\Windows\\Fonts\\YuGothR.ttc");
    reveal_strlit("C:\\Windows\\Fonts\\meiryo.ttc");
    reveal_strlit("C:\\Windows\\Fonts\\msgothic.ttc");
    reveal_strlit("C:\\Windows\\Fonts\\msmincho.ttc");
    reveal_strlit("C:\\Windows\\Fonts\\BIZ-UDGothicR.ttc");
    reveal_strlit("C:\\Windows\\Fonts\\BIZ-UDMinchoM.ttc");
    let c = catalog();
    let key = |e: (Seq<char>, Seq<char>)|
        if e.1.len() > 23 {
            (e.1[17], e.1[18], e.1[19], e.1[23])
        } else {
            (' ', ' ', ' ', ' ')
        };
    assert(c[i].1.len() > 23 && c[j].1.len() > 23);
    assert(key(c[i]) != key(c[j]));
    assert(c[i].0[0] != c[j].0[0] || c[i].0.len() != c[j].0.len() || c[i].0[3] != c[j].0[3]
        || c[i].0[6] != c[j].0[6]);
}

} // verus!
