use vstd::prelude::*;

verus! {

/// Alias under which a template is stored when the caller gives none.
pub const DEFAULT_ALIAS: &'static str = "default_rsgui_!#123#!";

/// Alias suffix of the backup template (the template at its unscaled size,
/// stored beside the one resized for high-density displays).
pub const DEFAULT_BCKP_ALIAS: &'static str = "bckp_tmpl_.#!123!#.";

/// Whether `pattern` occurs in `text` starting at position `i`.
pub open spec fn occurs_at_spec(pattern: Seq<char>, text: Seq<char>, i: int) -> bool {
    0 <= i && i + pattern.len() <= text.len() && text.subrange(i, i + pattern.len()) == pattern
}

/// Whether `pattern` occurs in `text`.
pub open spec fn occurs_in(pattern: Seq<char>, text: Seq<char>) -> bool {
    exists|i: int| #[trigger] occurs_at_spec(pattern, text, i)
}

/// Whether `pattern` occurs in `text` at position `i`.
fn occurs_at(text: &str, text_len: usize, pattern: &str, pattern_len: usize, i: usize) -> (r: bool)
    requires
        text_len == text@.len(),
        pattern_len == pattern@.len(),
        i + pattern_len <= text_len,
    ensures
        r == occurs_at_spec(pattern@, text@, i as int),
{
    let mut j: usize = 0;
    while j < pattern_len
        invariant
            text_len == text@.len(),
            pattern_len == pattern@.len(),
            i + pattern_len <= text_len,
            j <= pattern_len,
            forall|k: int| 0 <= k < j ==> text@[i + k] == pattern@[k],
        decreases pattern_len - j,
    {
        if text.get_char(i + j) != pattern.get_char(j) {
            assert(text@.subrange(i as int, i + pattern_len)[j as int] != pattern@[j as int]);
            return false;
        }
        j = j + 1;
    }
    assert(text@.subrange(i as int, i + pattern_len) =~= pattern@);
    true
}

/// Whether `pattern` occurs in `text`.
pub fn contains(text: &str, pattern: &str) -> (r: bool)
    ensures
        r == occurs_in(pattern@, text@),
{
    let text_len = text.unicode_len();
    let pattern_len = pattern.unicode_len();
    if pattern_len > text_len {
        return false;
    }
    let last = text_len - pattern_len;
    let mut i: usize = 0;
    while i < last
        invariant
            text_len == text@.len(),
            pattern_len == pattern@.len(),
            last == text_len - pattern_len,
            i <= last,
            forall|k: int| 0 <= k < i ==> !#[trigger] occurs_at_spec(pattern@, text@, k),
        decreases last - i,
    {
        if occurs_at(text, text_len, pattern, pattern_len, i) {
            return true;
        }
        i = i + 1;
    }
    occurs_at(text, text_len, pattern, pattern_len, last)
}

/// Whether a search that found nothing is repeated with the backup
/// template: only on high-density displays (`retina`), and only when the
/// searched template is not itself a backup.
pub fn needs_backup_search(retina: bool, current_template: &str) -> (r: bool)
    ensures
        r == (retina && !occurs_in(DEFAULT_BCKP_ALIAS@, current_template@)),
{
    retina && !contains(current_template, DEFAULT_BCKP_ALIAS)
}

/// Alias of the backup of `current_template`: the alias, `_` and the backup
/// suffix, or the backup suffix alone for the default alias.
pub open spec fn backup_alias_of(current_template: Seq<char>) -> Seq<char> {
    if current_template == DEFAULT_ALIAS@ {
        DEFAULT_BCKP_ALIAS@
    } else {
        current_template + "_"@ + DEFAULT_BCKP_ALIAS@
    }
}

/// The alias of the backup template of `current_template`.
pub fn backup_alias(current_template: &str) -> (r: String)
    ensures
        r@ == backup_alias_of(current_template@),
        current_template@ != DEFAULT_ALIAS@ ==> r@ == current_template@ + "_"@ + DEFAULT_BCKP_ALIAS@,
        current_template@ == DEFAULT_ALIAS@ ==> r@ == DEFAULT_BCKP_ALIAS@,
{
    let mut alias = String::new();
    if current_template.to_owned() != DEFAULT_ALIAS.to_owned() {
        alias.append(current_template);
        alias.append("_");
    }
    alias.append(DEFAULT_BCKP_ALIAS);
    alias
}

/// The decision after the first search for a template on a macOS screen:
/// `Some(alias)` when the search is repeated with the backup template under
/// `alias`, `None` when the first search's outcome stands.
pub fn macos_backup_search<T>(retina: bool, current_template: &str, first_match: &Option<T>) -> (r:
    Option<String>)
    ensures
        r is Some <==> (first_match is None && retina && !occurs_in(
            DEFAULT_BCKP_ALIAS@,
            current_template@,
        )),
        r matches Some(alias) ==> alias@ == backup_alias_of(current_template@),
        current_template@ != DEFAULT_ALIAS@ ==> (r matches Some(alias) ==> alias@
            == current_template@ + "_"@ + DEFAULT_BCKP_ALIAS@),
        current_template@ == DEFAULT_ALIAS@ ==> (r matches Some(alias) ==> alias@
            == DEFAULT_BCKP_ALIAS@),
{
    if needs_backup_search(retina, current_template) {
        match first_match {
            Some(_) => None,
            None => Some(backup_alias(current_template)),
        }
    } else {
        None
    }
}

/// A backup alias always names a backup, so a search under it never asks
/// for a further backup search: the retina fallback runs at most once.
pub proof fn lemma_backup_alias_is_final(current_template: Seq<char>)
    ensures
        occurs_in(DEFAULT_BCKP_ALIAS@, backup_alias_of(current_template)),
{
    let alias = backup_alias_of(current_template);
    let n = DEFAULT_BCKP_ALIAS@.len();
    let i = alias.len() - n;
    assert(alias.subrange(i, i + n) =~= DEFAULT_BCKP_ALIAS@);
    assert(occurs_at_spec(DEFAULT_BCKP_ALIAS@, alias, i));
}

/// The backup alias of any alias other than the default one starts with
/// that very alias, followed by `_` and the backup suffix; only the default
/// alias itself maps to the bare suffix.
pub proof fn lemma_backup_alias_keeps_alias(current_template: Seq<char>)
    ensures
        current_template != DEFAULT_ALIAS@ ==> {
            let alias = backup_alias_of(current_template);
            &&& alias.len() == current_template.len() + 1 + DEFAULT_BCKP_ALIAS@.len()
            &&& alias.subrange(0, current_template.len() as int) == current_template
            &&& alias[current_template.len() as int] == '_'
            &&& alias.subrange(current_template.len() as int + 1, alias.len() as int)
                == DEFAULT_BCKP_ALIAS@
        },
        current_template == DEFAULT_ALIAS@ ==> backup_alias_of(current_template)
            == DEFAULT_BCKP_ALIAS@,
{
    reveal_strlit("_");
    if current_template != DEFAULT_ALIAS@ {
        let alias = backup_alias_of(current_template);
        let n = current_template.len() as int;
        assert(alias.subrange(0, n) =~= current_template);
        assert(alias.subrange(n + 1, alias.len() as int) =~= DEFAULT_BCKP_ALIAS@);
    }
}

/// Two different aliases have different backup aliases, unless one of them
/// is the default alias (whose backup is the bare suffix).
pub proof fn lemma_backup_alias_distinguishes(a: Seq<char>, b: Seq<char>)
    requires
        a != b,
        a != DEFAULT_ALIAS@,
        b != DEFAULT_ALIAS@,
    ensures
        backup_alias_of(a) != backup_alias_of(b),
{
    lemma_backup_alias_keeps_alias(a);
    lemma_backup_alias_keeps_alias(b);
    if backup_alias_of(a) == backup_alias_of(b) {
        assert(a.len() == b.len());
        assert(a =~= backup_alias_of(a).subrange(0, a.len() as int));
        assert(b =~= backup_alias_of(b).subrange(0, b.len() as int));
    }
}

/// `occurs_in` is the substring relation: `pattern` occurs in `text` exactly
/// when some position of `text` starts a run of characters equal to
/// `pattern`'s, one by one.
pub proof fn lemma_occurs_in_is_substring(pattern: Seq<char>, text: Seq<char>, i: int)
    ensures
        (0 <= i && i + pattern.len() <= text.len() && forall|j: int|
            0 <= j < pattern.len() ==> text[i + j] == pattern[j]) ==> occurs_in(pattern, text),
        occurs_in(pattern, text) ==> pattern.len() <= text.len(),
{
    if 0 <= i && i + pattern.len() <= text.len() && forall|j: int|
        0 <= j < pattern.len() ==> text[i + j] == pattern[j] {
        assert(text.subrange(i, i + pattern.len()) =~= pattern);
        assert(occurs_at_spec(pattern, text, i));
    }
    if occurs_in(pattern, text) {
        let k = choose|k: int| occurs_at_spec(pattern, text, k);
        assert(occurs_at_spec(pattern, text, k));
    }
}

} // verus!
