//! Laws of words and texts that other programs read: what is quoted reads back as what it was,
//! and no word of a command line is lost.

use vstd::prelude::*;

use crate::cli::{
    sections_from, sections_of, token_system, with_argument, CommandTokenView,
    PackageSystemSectionView,
};
use crate::s3::shell_word;
use crate::sibling::{has_sibling, overlay_plan, unknown_sibling, PatchOverrideView, SiblingSourceView};
use crate::system::system_name;
use crate::template::ruby_escaped;
use crate::text::replaced;

verus! {

/// How a shell reads a text: inside single quotes every character stands for itself, and outside
/// of them a backslash makes the next character stand for itself. Nothing is read of a text that
/// ends in the middle of a quotation, or that holds another character outside of one.
pub open spec fn shell_reading(text: Seq<char>, quoted: bool) -> Option<Seq<char>>
    decreases text.len(),
{
    if text.len() == 0 {
        if quoted {
            None
        } else {
            Some(Seq::empty())
        }
    } else if text[0] == '\'' {
        shell_reading(text.skip(1), !quoted)
    } else if quoted {
        match shell_reading(text.skip(1), true) {
            Some(rest) => Some(seq![text[0]] + rest),
            None => None,
        }
    } else if text[0] == '\\' && text.len() >= 2 {
        match shell_reading(text.skip(2), false) {
            Some(rest) => Some(seq![text[1]] + rest),
            None => None,
        }
    } else {
        None
    }
}

proof fn lemma_replaced_first(text: Seq<char>, c: char, with: Seq<char>)
    requires
        text.len() > 0,
    ensures
        replaced(text, c, with) == (if text[0] == c {
            with
        } else {
            seq![text[0]]
        }) + replaced(text.skip(1), c, with),
    decreases text.len(),
{
    let first = if text[0] == c {
        with
    } else {
        seq![text[0]]
    };
    if text.len() == 1 {
        assert(text.skip(1) =~= Seq::empty());
        assert(text.drop_last() =~= Seq::empty());
        assert(replaced(text.drop_last(), c, with) =~= Seq::empty());
        assert(replaced(text, c, with) =~= first + replaced(text.skip(1), c, with));
    } else {
        let rest = text.skip(1);
        lemma_replaced_first(text.drop_last(), c, with);
        assert(text.drop_last().skip(1) =~= rest.drop_last());
        assert(rest.last() == text.last());
        if text.last() == c {
            assert(replaced(text, c, with) =~= first + (replaced(rest.drop_last(), c, with)
                + with));
        } else {
            assert(replaced(text, c, with) =~= first + replaced(rest.drop_last(), c, with).push(
                text.last(),
            ));
        }
    }
}

proof fn lemma_quoted_reading(value: Seq<char>)
    ensures
        shell_reading(replaced(value, '\'', "'\\''"@) + seq!['\''], true) == Some(value),
    decreases value.len(),
{
    reveal_strlit("'\\''");
    let mark = "'\\''"@;
    let tail = seq!['\''];
    if value.len() == 0 {
        let text = replaced(value, '\'', mark) + tail;
        assert(text =~= tail);
        assert(text.skip(1) =~= Seq::empty());
        assert(shell_reading(text.skip(1), false) == Some(Seq::<char>::empty()));
        assert(value =~= Seq::empty());
    } else {
        let rest = value.skip(1);
        lemma_quoted_reading(rest);
        lemma_replaced_first(value, '\'', mark);
        let after = replaced(rest, '\'', mark) + tail;
        let text = replaced(value, '\'', mark) + tail;
        if value[0] == '\'' {
            assert(text =~= mark + after);
            assert(mark.len() == 4);
            let one = text.skip(1);
            assert(text[0] == '\'');
            assert(one[0] == '\\' && one[1] == '\'');
            let three = one.skip(2);
            assert(three[0] == '\'');
            assert(three.skip(1) =~= after);
            assert(shell_reading(three, false) == shell_reading(after, true));
            assert(shell_reading(one, false) == Some(seq!['\''] + rest));
            assert(seq!['\''] + rest =~= value);
        } else {
            assert(text =~= seq![value[0]] + after);
            assert(text.skip(1) =~= after);
            assert(text[0] == value[0]);
            assert(seq![value[0]] + rest =~= value);
        }
    }
}

/// A quoted word is one word to a shell, and reads back as the text that was quoted.
pub proof fn lemma_shell_word_reads_back(value: Seq<char>)
    ensures
        shell_reading(shell_word(value), false) == Some(value),
{
    reveal_strlit("'");
    assert("'"@ =~= seq!['\'']);
    lemma_quoted_reading(value);
    let word = shell_word(value);
    let inner = replaced(value, '\'', "'\\''"@) + seq!['\''];
    assert(word =~= seq!['\''] + inner);
    assert(word.skip(1) =~= inner);
    assert(word[0] == '\'');
}

/// How Ruby reads a text between double quotes, as far as backslashes and quotes are concerned:
/// a backslash makes the next character stand for itself, and a quote by itself ends the text.
pub open spec fn ruby_reading(text: Seq<char>) -> Option<Seq<char>>
    decreases text.len(),
{
    if text.len() == 0 {
        Some(Seq::empty())
    } else if text[0] == '"' {
        None
    } else if text[0] == '\\' {
        if text.len() < 2 {
            None
        } else {
            match ruby_reading(text.skip(2)) {
                Some(rest) => Some(seq![text[1]] + rest),
                None => None,
            }
        }
    } else {
        match ruby_reading(text.skip(1)) {
            Some(rest) => Some(seq![text[0]] + rest),
            None => None,
        }
    }
}

/// What a text becomes is made of what each of its characters becomes.
proof fn lemma_escaped_first(value: Seq<char>)
    requires
        value.len() > 0,
    ensures
        ruby_escaped(value) == (if value[0] == '\\' || value[0] == '"' {
            seq!['\\', value[0]]
        } else {
            seq![value[0]]
        }) + ruby_escaped(value.skip(1)),
{
    reveal_strlit("\\\\");
    reveal_strlit("\\\"");
    let slashes = "\\\\"@;
    let quote = "\\\""@;
    let rest = value.skip(1);
    lemma_replaced_first(value, '\\', slashes);
    let once = replaced(value, '\\', slashes);
    let tail = replaced(rest, '\\', slashes);
    if value[0] == '\\' {
        assert(once =~= seq!['\\', '\\'] + tail);
        lemma_replaced_first(once, '"', quote);
        assert(once.skip(1) =~= seq!['\\'] + tail);
        lemma_replaced_first(once.skip(1), '"', quote);
        assert(once.skip(1).skip(1) =~= tail);
        assert(ruby_escaped(value) =~= seq!['\\', value[0]] + ruby_escaped(rest));
    } else {
        assert(once =~= seq![value[0]] + tail);
        lemma_replaced_first(once, '"', quote);
        assert(once.skip(1) =~= tail);
        if value[0] == '"' {
            assert(quote =~= seq!['\\', value[0]]);
        }
    }
}

/// An escaped text reads back, between double quotes, as the text that was escaped.
pub proof fn lemma_ruby_text_reads_back(value: Seq<char>)
    ensures
        ruby_reading(ruby_escaped(value)) == Some(value),
    decreases value.len(),
{
    let text = ruby_escaped(value);
    if value.len() == 0 {
        assert(replaced(value, '\\', "\\\\"@) =~= Seq::empty());
        assert(text =~= Seq::empty());
        assert(value =~= Seq::empty());
    } else {
        let rest = value.skip(1);
        lemma_escaped_first(value);
        lemma_ruby_text_reads_back(rest);
        assert(seq![value[0]] + rest =~= value);
        if value[0] == '\\' || value[0] == '"' {
            assert(text.skip(2) =~= ruby_escaped(rest));
            assert(text[0] == '\\' && text[1] == value[0]);
        } else {
            assert(text.skip(1) =~= ruby_escaped(rest));
            assert(text[0] == value[0]);
        }
    }
}

/// The words of sections, one after the other.
pub open spec fn section_words(sections: Seq<PackageSystemSectionView>) -> Seq<CommandTokenView>
    decreases sections.len(),
{
    if sections.len() == 0 {
        Seq::empty()
    } else {
        section_words(sections.drop_last()).push(
            CommandTokenView::Text(system_name(sections.last().system)),
        ) + sections.last().args
    }
}

/// Whether no argument of a section names a package system.
pub open spec fn names_no_system(section: PackageSystemSectionView) -> bool {
    forall|i: int| 0 <= i < section.args.len() ==> token_system(#[trigger] section.args[i]) is None
}

proof fn lemma_system_word(token: CommandTokenView)
    ensures
        token_system(token) matches Some(system) ==> token == CommandTokenView::Text(
            system_name(system),
        ),
{
}

proof fn lemma_sections_from(
    tokens: Seq<CommandTokenView>,
    from: int,
    found: Seq<PackageSystemSectionView>,
)
    requires
        0 <= from <= tokens.len(),
        section_words(found) == tokens.take(from),
        forall|i: int| 0 <= i < found.len() ==> names_no_system(#[trigger] found[i]),
    ensures
        sections_from(tokens, from, found) matches Ok(sections) ==> sections.len() > 0
            && section_words(sections) == tokens && (forall|i: int|
            0 <= i < sections.len() ==> names_no_system(#[trigger] sections[i])),
    decreases tokens.len() - from,
{
    if from >= tokens.len() {
        assert(tokens.take(from) =~= tokens);
    } else {
        assert(tokens.take(from + 1) =~= tokens.take(from).push(tokens[from]));
        match token_system(tokens[from]) {
            Some(system) => {
                lemma_system_word(tokens[from]);
                let section = PackageSystemSectionView { system, args: Seq::empty() };
                let next = found.push(section);
                assert(next.drop_last() =~= found);
                assert(section_words(next) =~= tokens.take(from + 1));
                lemma_sections_from(tokens, from + 1, next);
            },
            None => {
                if found.len() > 0 {
                    let next = with_argument(found, tokens[from]);
                    assert(next.drop_last() =~= found.drop_last());
                    assert(section_words(next) =~= section_words(found).push(tokens[from]));
                    assert(names_no_system(found.last()));
                    assert(names_no_system(next.last()));
                    lemma_sections_from(tokens, from + 1, next);
                }
            },
        }
    }
}

/// A command line is cut into sections without losing a word: the sections, one after the other,
/// are the command line, and a section ends where the next package system is named.
pub proof fn lemma_sections_hold_every_word(tokens: Seq<CommandTokenView>)
    ensures
        sections_of(tokens) matches Ok(sections) ==> sections.len() > 0 && section_words(sections)
            == tokens && (forall|i: int|
            0 <= i < sections.len() ==> names_no_system(#[trigger] sections[i])),
{
    assert(tokens.take(0) =~= Seq::empty());
    lemma_sections_from(tokens, 0, Seq::empty());
}

proof fn lemma_known_siblings(
    siblings: Seq<SiblingSourceView>,
    overrides: Seq<PatchOverrideView>,
    from: int,
)
    requires
        0 <= from <= overrides.len(),
    ensures
        unknown_sibling(siblings, overrides, from) is None <==> forall|i: int|
            from <= i < overrides.len() ==> has_sibling(siblings, (#[trigger] overrides[i]).sibling),
    decreases overrides.len() - from,
{
    if from < overrides.len() && has_sibling(siblings, overrides[from].sibling) {
        lemma_known_siblings(siblings, overrides, from + 1);
    }
}

/// An overlay is planned exactly where every patch leads to a sibling that is there. It then
/// mounts each of the siblings, and nothing else.
pub proof fn lemma_patches_lead_to_mounted_siblings(
    siblings: Seq<SiblingSourceView>,
    overrides: Seq<PatchOverrideView>,
)
    ensures
        overlay_plan(siblings, overrides) is Ok <==> forall|i: int|
            0 <= i < overrides.len() ==> has_sibling(siblings, (#[trigger] overrides[i]).sibling),
        overlay_plan(siblings, overrides) matches Ok(plan) ==> plan.mounts.len() == siblings.len()
            && forall|i: int|
            0 <= i < siblings.len() ==> #[trigger] plan.mounts[i] == crate::sibling::sibling_mount(
                siblings[i],
            ),
{
    lemma_known_siblings(siblings, overrides, 0);
}

} // verus!
