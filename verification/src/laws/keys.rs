//! Laws of remote places: prefixes, public addresses and the keys of package files.

use vstd::prelude::*;

use crate::publish::{
    below_prefix, deb_file_version, deb_key_version, key_below, payload_key, public_base_url,
    remote_prefix, rpm_file_architecture, rpm_key_version, LinuxPackagePayloadView,
    LinuxPackageVersionView,
};
use crate::system::PackageSystem;
use crate::text::{
    before_suffix, char_is, cut_first, cut_last, first_at, last_char_at, leading, lemma_first_at,
    lemma_last_char_at, lemma_leading_bounds, lemma_trailing_bounds, occurs_at, pieces,
    pieces_from, trailing, trimmed, trimmed_end,
};

verus! {

/// A remote prefix holds something, neither begins nor ends with a slash, and is its own prefix
/// when it is read again. A text is refused exactly where it holds nothing but slashes.
pub proof fn lemma_remote_prefix(value: Seq<char>)
    ensures
        match remote_prefix(value) {
            Ok(prefix) => {
                &&& prefix.len() > 0
                &&& prefix[0] != '/'
                &&& prefix.last() != '/'
                &&& remote_prefix(prefix) == remote_prefix(value)
            },
            Err(_) => forall|i: int| 0 <= i < value.len() ==> #[trigger] value[i] == '/',
        },
        (forall|i: int| 0 <= i < value.len() ==> #[trigger] value[i] == '/') ==> remote_prefix(
            value,
        ) is Err,
{
    let drop = char_is('/');
    let start = leading(value, drop, 0);
    let rest = value.skip(start);
    lemma_leading_bounds(value, drop, 0);
    lemma_trailing_bounds(rest, drop, rest.len() as int);
    let end = trailing(rest, drop, rest.len() as int);
    let prefix = rest.take(end);
    assert(trimmed(value, drop) == prefix);
    if end > 0 {
        assert(rest[0] == value[start]);
        assert(prefix[0] == rest[0]);
        assert(prefix.last() == rest[end - 1]);
        assert(leading(prefix, drop, 0) == 0);
        assert(prefix.skip(0) =~= prefix);
        assert(trailing(prefix, drop, prefix.len() as int) == prefix.len());
        assert(prefix.take(prefix.len() as int) =~= prefix);
    } else {
        assert forall|i: int| 0 <= i < value.len() implies #[trigger] value[i] == '/' by {
            if i >= start {
                assert(rest[i - start] == value[i]);
            }
        }
    }
}

/// A public address holds something, does not end with a slash, and is its own address when it
/// is read again.
pub proof fn lemma_public_base_url(value: Seq<char>)
    ensures
        match public_base_url(value) {
            Ok(url) => {
                &&& url.len() > 0
                &&& url.last() != '/'
                &&& public_base_url(url) == public_base_url(value)
            },
            Err(_) => forall|i: int| 0 <= i < value.len() ==> #[trigger] value[i] == '/',
        },
        (forall|i: int| 0 <= i < value.len() ==> #[trigger] value[i] == '/') ==> public_base_url(
            value,
        ) is Err,
{
    let drop = char_is('/');
    lemma_trailing_bounds(value, drop, value.len() as int);
    let end = trailing(value, drop, value.len() as int);
    let url = value.take(end);
    assert(trimmed_end(value, drop) == url);
    if end > 0 {
        assert(url.last() == value[end - 1]);
        assert(trailing(url, drop, url.len() as int) == url.len());
        assert(url.take(url.len() as int) =~= url);
    }
}

/// Whether a text holds a character nowhere.
pub open spec fn lacks(text: Seq<char>, c: char) -> bool {
    forall|i: int| 0 <= i < text.len() ==> #[trigger] text[i] != c
}

proof fn lemma_slash()
    ensures
        "/"@ == seq!['/'],
{
    reveal_strlit("/");
    assert("/"@ =~= seq!['/']);
}

/// A key below a prefix leads back to what it was made of.
pub proof fn lemma_key_below(prefix: Seq<char>, relative: Seq<char>)
    ensures
        key_below(prefix, below_prefix(prefix, relative)) == Some(relative),
{
    lemma_slash();
    let key = below_prefix(prefix, relative);
    assert(key.subrange(0, prefix.len() as int) =~= prefix);
    let rest = key.skip(prefix.len() as int);
    assert(rest.subrange(0, 1) =~= "/"@);
    assert(rest.skip(1) =~= relative);
}

/// The first place of a character is where it stands first.
pub proof fn lemma_first_char(text: Seq<char>, c: char, from: int, at: int)
    requires
        0 <= from <= at < text.len(),
        text[at] == c,
        forall|i: int| from <= i < at ==> #[trigger] text[i] != c,
    ensures
        first_at(text, seq![c], from) == Some(at),
{
    lemma_first_at(text, seq![c], from);
    assert(text.subrange(at, at + 1) =~= seq![c]);
    assert(occurs_at(text, seq![c], at));
    let first = first_at(text, seq![c], from)->0;
    assert(text.subrange(first, first + 1)[0] == seq![c][0]);
}

pub proof fn lemma_no_char(text: Seq<char>, c: char, from: int)
    requires
        0 <= from <= text.len(),
        forall|i: int| from <= i < text.len() ==> #[trigger] text[i] != c,
    ensures
        first_at(text, seq![c], from) is None,
{
    lemma_first_at(text, seq![c], from);
    if first_at(text, seq![c], from) is Some {
        let first = first_at(text, seq![c], from)->0;
        assert(text.subrange(first, first + 1)[0] == seq![c][0]);
    }
}

/// A piece ends where its separator comes first.
proof fn lemma_next_piece(text: Seq<char>, from: int, at: int)
    requires
        0 <= from <= at < text.len(),
        text[at] == '/',
        forall|i: int| from <= i < at ==> #[trigger] text[i] != '/',
    ensures
        pieces_from(text, seq!['/'], from) == seq![text.subrange(from, at)] + pieces_from(
            text,
            seq!['/'],
            at + 1,
        ),
{
    lemma_first_char(text, '/', from, at);
}

proof fn lemma_last_piece(text: Seq<char>, from: int)
    requires
        0 <= from <= text.len(),
        forall|i: int| from <= i < text.len() ==> #[trigger] text[i] != '/',
    ensures
        pieces_from(text, seq!['/'], from) == seq![text.subrange(from, text.len() as int)],
{
    lemma_no_char(text, '/', from);
}

/// A text cut at the first place of a character.
pub proof fn lemma_cut_first(before: Seq<char>, c: char, after: Seq<char>)
    requires
        lacks(before, c),
    ensures
        cut_first(before.push(c) + after, c) == Some((before, after)),
{
    let text = before.push(c) + after;
    assert(forall|i: int| 0 <= i < before.len() ==> #[trigger] text[i] == before[i]);
    lemma_first_char(text, c, 0, before.len() as int);
    assert(text.take(before.len() as int) =~= before);
    assert(text.skip(before.len() as int + 1) =~= after);
}

/// A text cut at the last place of a character.
pub proof fn lemma_cut_last(before: Seq<char>, c: char, after: Seq<char>)
    requires
        lacks(after, c),
    ensures
        cut_last(before.push(c) + after, c) == Some((before, after)),
{
    let text = before.push(c) + after;
    let length = text.len() as int;
    lemma_last_char_at(text, c, length);
    assert(text[before.len() as int] == c);
    let at = last_char_at(text, c, length)->0;
    if at > before.len() {
        assert(text[at] == after[at - before.len() - 1]);
    }
    assert(text.take(at) =~= before);
    assert(text.skip(at + 1) =~= after);
}

/// A file name of a deb package tells the package, the version and the architecture that it was
/// made of.
pub proof fn lemma_deb_file_name(package: Seq<char>, version: Seq<char>, architecture: Seq<char>)
    requires
        lacks(package, '_'),
        lacks(architecture, '_'),
    ensures
        deb_file_version(package + "_"@ + version + "_"@ + architecture + ".deb"@) == Some(
            LinuxPackageVersionView { package, version, architecture },
        ),
{
    reveal_strlit("_");
    assert("_"@ =~= seq!['_']);
    let stem = package + "_"@ + version + "_"@ + architecture;
    let name = stem + ".deb"@;
    assert(name.subrange(stem.len() as int, name.len() as int) =~= ".deb"@);
    assert(name.take(stem.len() as int) =~= stem);
    assert(before_suffix(name, ".deb"@) == Some(stem));
    let rest = package.push('_') + version;
    assert(stem =~= rest.push('_') + architecture);
    lemma_cut_last(rest, '_', architecture);
    lemma_cut_first(package, '_', version);
}

/// The key under which a deb package file is published tells, when it is read back, the package,
/// the version and the architecture of that file. The name of the file is the usual one; the name
/// of the package and the architecture hold no underscore, and none of the parts a slash.
pub proof fn lemma_deb_key_reads_back(prefix: Seq<char>, payload: LinuxPackagePayloadView)
    requires
        payload.package.len() > 0,
        lacks(payload.package, '_'),
        lacks(payload.package, '/'),
        lacks(payload.version, '/'),
        lacks(payload.architecture, '_'),
        lacks(payload.architecture, '/'),
        payload.archive_name == payload.package + "_"@ + payload.version + "_"@
            + payload.architecture + ".deb"@,
    ensures
        payload_key(prefix, PackageSystem::Deb, payload) matches Ok(key) && deb_key_version(
            prefix,
            key,
        ) matches Ok(version) && version == (LinuxPackageVersionView {
            package: payload.package,
            version: payload.version,
            architecture: payload.architecture,
        }),
{
    lemma_slash();
    reveal_strlit("pool/main/");
    reveal_strlit("pool");
    reveal_strlit("main");
    reveal_strlit("_");
    reveal_strlit(".deb");
    let package = payload.package;
    let name = payload.archive_name;
    let relative = "pool/main/"@.push(package[0]) + "/"@ + package + "/"@ + name;
    lemma_key_below(prefix, relative);
    let end = 12 + package.len() as int;
    assert forall|i: int| 0 <= i < relative.len() implies (#[trigger] relative[i] == '/' <==> i == 4
        || i == 9 || i == 11 || i == end) by {
        if 12 <= i < end {
            assert(relative[i] == package[i - 12]);
        } else if i > end {
            let k = i - end - 1;
            assert(relative[i] == name[k]);
            let first = package.len() as int;
            let second = first + 1 + payload.version.len();
            let third = second + 1 + payload.architecture.len();
            if k < first {
                assert(name[k] == package[k]);
            } else if k == first {
                assert(name[k] == '_');
            } else if k < second {
                assert(name[k] == payload.version[k - first - 1]);
            } else if k == second {
                assert(name[k] == '_');
            } else if k < third {
                assert(name[k] == payload.architecture[k - second - 1]);
            } else {
                assert(name[k] == ".deb"@[k - third]);
            }
        }
    }
    lemma_next_piece(relative, 0, 4);
    lemma_next_piece(relative, 5, 9);
    lemma_next_piece(relative, 10, 11);
    lemma_next_piece(relative, 12, end);
    lemma_last_piece(relative, end + 1);
    let parts = pieces(relative, "/"@);
    assert(parts.len() == 5);
    assert(parts[0] =~= "pool"@);
    assert(parts[1] =~= "main"@);
    assert(parts[4] =~= name);
    lemma_deb_file_name(package, payload.version, payload.architecture);
}

/// A file name of an rpm package tells the architecture that it was made of.
pub proof fn lemma_rpm_file_name(stem: Seq<char>, architecture: Seq<char>)
    requires
        lacks(architecture, '.'),
    ensures
        rpm_file_architecture(stem + "."@ + architecture + ".rpm"@) == Some(architecture),
{
    reveal_strlit(".");
    assert("."@ =~= seq!['.']);
    let whole = stem + "."@ + architecture;
    let name = whole + ".rpm"@;
    assert(name.subrange(whole.len() as int, name.len() as int) =~= ".rpm"@);
    assert(name.take(whole.len() as int) =~= whole);
    assert(before_suffix(name, ".rpm"@) == Some(whole));
    assert(whole =~= stem.push('.') + architecture);
    lemma_cut_last(stem, '.', architecture);
}

/// Three names with slashes between them are cut into those names.
pub proof fn lemma_three_names(first: Seq<char>, second: Seq<char>, third: Seq<char>)
    requires
        lacks(first, '/'),
        lacks(second, '/'),
        lacks(third, '/'),
    ensures
        pieces(first + "/"@ + second + "/"@ + third, "/"@) == seq![first, second, third],
{
    lemma_slash();
    let text = first + "/"@ + second + "/"@ + third;
    let one = first.len() as int;
    let two = one + 1 + second.len();
    assert forall|i: int| 0 <= i < text.len() implies (#[trigger] text[i] == '/' <==> i == one || i
        == two) by {
        if i < one {
            assert(text[i] == first[i]);
        } else if one < i < two {
            assert(text[i] == second[i - one - 1]);
        } else if i > two {
            assert(text[i] == third[i - two - 1]);
        }
    }
    lemma_next_piece(text, 0, one);
    lemma_next_piece(text, one + 1, two);
    lemma_last_piece(text, two + 1);
    assert(text.subrange(0, one) =~= first);
    assert(text.subrange(one + 1, two) =~= second);
    assert(text.subrange(two + 1, text.len() as int) =~= third);
    assert(pieces(text, "/"@) =~= seq![first, second, third]);
}

/// The key under which an rpm package file is published tells, when it is read back, the
/// package, the version and the architecture of that file. The name of the file ends in the
/// architecture, which holds no dot, and none of the parts holds a slash.
pub proof fn lemma_rpm_key_reads_back(
    prefix: Seq<char>,
    payload: LinuxPackagePayloadView,
    stem: Seq<char>,
)
    requires
        lacks(payload.package, '/'),
        lacks(payload.version, '/'),
        lacks(payload.archive_name, '/'),
        lacks(payload.architecture, '.'),
        payload.archive_name == stem + "."@ + payload.architecture + ".rpm"@,
    ensures
        payload_key(prefix, PackageSystem::Rpm, payload) matches Ok(key) && rpm_key_version(
            prefix,
            key,
        ) matches Ok(version) && version == (LinuxPackageVersionView {
            package: payload.package,
            version: payload.version,
            architecture: payload.architecture,
        }),
{
    lemma_slash();
    let package = payload.package;
    let name = payload.archive_name;
    let relative = package + "/"@ + payload.version + "/"@ + name;
    lemma_key_below(prefix, relative);
    let first = package.len() as int;
    let second = first + 1 + payload.version.len();
    assert forall|i: int| 0 <= i < relative.len() implies (#[trigger] relative[i] == '/' <==> i
        == first || i == second) by {
        if i < first {
            assert(relative[i] == package[i]);
        } else if first < i < second {
            assert(relative[i] == payload.version[i - first - 1]);
        } else if i > second {
            assert(relative[i] == name[i - second - 1]);
        }
    }
    lemma_next_piece(relative, 0, first);
    lemma_next_piece(relative, first + 1, second);
    lemma_last_piece(relative, second + 1);
    let parts = pieces(relative, "/"@);
    assert(parts.len() == 3);
    assert(parts[0] =~= package);
    assert(parts[1] =~= payload.version);
    assert(parts.last() =~= name);
    lemma_rpm_file_name(stem, payload.architecture);
}

} // verus!
