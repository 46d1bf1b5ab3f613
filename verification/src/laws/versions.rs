//! Laws of versions and names as they are written.

use vstd::prelude::*;

use crate::laws::keys::lacks;
use crate::package::{fragment_char, is_package_id};
use crate::text::decimal;
use crate::version::SourceVersionView;

verus! {

/// A number is written in decimal digits: the last one tells what is left over of tens, and
/// those before it are the tens, written the same way.
pub proof fn lemma_numbers_are_decimal(value: nat)
    ensures
        value < 10 ==> decimal(value) == seq!["0123456789"@[value as int]],
        value >= 10 ==> decimal(value) == decimal(value / 10).push(
            "0123456789"@[(value % 10) as int],
        ),
{
    reveal_strlit("0123456789");
}

/// A version is written with dots between its numbers, a hyphen before what precedes a release,
/// and a plus sign before what names a build; neither sign is there without what follows it.
pub proof fn lemma_versions_are_written(version: SourceVersionView)
    ensures
        version.numbers() == decimal(version.major as nat) + "."@ + decimal(version.minor as nat)
            + "."@ + decimal(version.patch as nat),
        version.pre.len() == 0 && version.build.len() == 0 ==> version.text() == version.numbers(),
        version.pre.len() > 0 && version.build.len() == 0 ==> version.text() == version.numbers()
            + "-"@ + version.pre,
        version.pre.len() == 0 && version.build.len() > 0 ==> version.text() == version.numbers()
            + "+"@ + version.build,
        version.pre.len() > 0 && version.build.len() > 0 ==> version.text() == version.numbers()
            + "-"@ + version.pre + "+"@ + version.build,
{
}

/// A text names a package exactly where it says something and holds neither a dot nor a space.
pub proof fn lemma_package_names(text: Seq<char>)
    ensures
        is_package_id(text) <==> text.len() > 0 && lacks(text, '.') && lacks(text, ' ') && lacks(
            text,
            '\t',
        ) && lacks(text, '\n') && lacks(text, '\u{c}') && lacks(text, '\r'),
{
}

/// In the name of a variable a letter is a capital, a digit is itself, and anything else is an
/// underscore.
pub proof fn lemma_variable_names_are_capitals(c: char)
    ensures
        'a' <= c <= 'z' ==> fragment_char(c) == "ABCDEFGHIJKLMNOPQRSTUVWXYZ"@[c as int - 'a' as int],
        'A' <= c <= 'Z' || '0' <= c <= '9' ==> fragment_char(c) == c,
        !('a' <= c <= 'z') && !('A' <= c <= 'Z') && !('0' <= c <= '9') ==> fragment_char(c) == '_',
{
    reveal_strlit("ABCDEFGHIJKLMNOPQRSTUVWXYZ");
}

} // verus!
