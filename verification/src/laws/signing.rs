//! Laws of repository metadata: what the containers run that make and sign it.

use vstd::prelude::*;

use crate::contract::ReleaseContract;
use crate::laws::keys::lacks;
use crate::laws::texts::{lemma_contained_twice, lemma_middle_is_contained};
use crate::publication::{
    advanced, PublicationActionView, PublicationEventView, PublicationStageView, PublicationView,
};
use crate::publish::{S3PublishTargetView, UploadConditionView};
use crate::s3::{
    container_words, index_commands, indexing_commands, metadata_script, mount_words,
    normal_fingerprint, release_commands, shell_word, signing_commands,
};
use crate::text::{contains_text, has_prefix, has_suffix, is_space, replaced, upper_case};

verus! {

/// The command that signs the release of a suite apart from it.
pub open spec fn detached_signature(suite: Seq<char>, options: Seq<char>) -> Seq<char> {
    "gpg --batch --yes --homedir /tmp/xtask-apt-gpg --pinentry-mode loopback --default-key "@
        + options + " --detach-sign --armor -o dists/"@ + suite + "/Release.gpg dists/"@ + suite
        + "/Release\n"@
}

/// The command that signs the release of a suite together with its text.
pub open spec fn clear_signature(suite: Seq<char>, options: Seq<char>) -> Seq<char> {
    "gpg --batch --yes --homedir /tmp/xtask-apt-gpg --pinentry-mode loopback --default-key "@
        + options + " --clearsign -o dists/"@ + suite + "/InRelease dists/"@ + suite
        + "/Release\n"@
}

/// The commands that import the signing key into a new keyring, and stop where it is not the
/// one that the fingerprint names.
pub open spec fn key_import(fingerprint: Seq<char>) -> Seq<char> {
    "rm -rf /tmp/xtask-apt-gpg\nmkdir -m 700 /tmp/xtask-apt-gpg\ngpg --batch --homedir /tmp/xtask-apt-gpg --import /apt-secrets/key.asc\nactual=\"$(gpg --batch --homedir /tmp/xtask-apt-gpg --with-colons --fingerprint "@
        + fingerprint
        + " | awk -F: '$1 == \"fpr\" { print toupper($10); exit }')\"\nif [ \"$actual\" != "@
        + fingerprint
        + " ]; then echo 'gpg fingerprint did not match imported key' >&2; exit 1; fi\n"@
}

/// The command that makes the release of a suite from its indexes.
pub open spec fn release_making(suite: Seq<char>) -> Seq<char> {
    "mkdir -p dists/"@ + suite + "\napt-ftparchive -o "@
        + "'APT::FTPArchive::Release::Origin=genmeta'"@
        + " -o "@ + "'APT::FTPArchive::Release::Label=genmeta'"@
        + " -o "@ + "'APT::FTPArchive::Release::Suite=stable'"@
        + " -o "@ + ("'APT::FTPArchive::Release::Codename="@ + suite + "'"@)
        + " -o "@ + "'APT::FTPArchive::Release::Version=2025'"@
        + " -o "@ + "'APT::FTPArchive::Release::Architectures=amd64 arm64 armhf i386'"@
        + " -o "@ + "'APT::FTPArchive::Release::Components=main contrib non-free'"@
        + " -o "@ + "'APT::FTPArchive::Release::Description=Genmeta Package Archives'"@
        + " release "@ + ("'dists/"@ + suite + "'"@) + " > "@ + ("'dists/"@ + suite
        + "/Release'"@) + "\n"@
}

/// The commands that make the index of one component for one architecture.
#[verifier::opaque]
pub open spec fn index_making(
    suite: Seq<char>,
    component: Seq<char>,
    architecture: Seq<char>,
) -> Seq<char> {
    let base = "dists/"@ + suite + "/"@ + component + "/binary-"@ + architecture;
    "mkdir -p "@ + base + "\nmkdir -p pool/"@ + component
        + "\ndpkg-scanpackages --multiversion --arch "@ + architecture + " pool/"@ + component
        + " /dev/null > "@ + base + "/Packages\ngzip -n -c "@ + base + "/Packages > "@ + base
        + "/Packages.gz\nprintf 'Archive: "@ + suite + "\\nComponent: "@ + component
        + "\\nArchitecture: "@ + architecture + "\\n' > "@ + base + "/Release\n"@
}

/// A component that apt knows.
pub open spec fn is_component(name: Seq<char>) -> bool {
    name == "main"@ || name == "contrib"@ || name == "non-free"@
}

/// An architecture that apt knows.
pub open spec fn is_architecture(name: Seq<char>) -> bool {
    name == "amd64"@ || name == "arm64"@ || name == "armhf"@ || name == "i386"@
}

proof fn lemma_nothing_is_replaced(text: Seq<char>, c: char, with: Seq<char>)
    requires
        lacks(text, c),
    ensures
        replaced(text, c, with) == text,
    decreases text.len(),
{
    if text.len() > 0 {
        assert(text.last() == text[text.len() - 1]);
        assert forall|i: int| 0 <= i < text.drop_last().len() implies #[trigger] text.drop_last()[i]
            != c by {
            assert(text[i] != c);
        }
        lemma_nothing_is_replaced(text.drop_last(), c, with);
        assert(text.drop_last().push(text.last()) =~= text);
    } else {
        assert(replaced(text, c, with) =~= text);
    }
}

proof fn lemma_plain_word(value: Seq<char>)
    requires
        lacks(value, '\''),
    ensures
        shell_word(value) == "'"@ + value + "'"@,
{
    lemma_nothing_is_replaced(value, '\'', "'\\''"@);
}

proof fn lemma_sum_is_associative(a: Seq<char>, b: Seq<char>, c: Seq<char>)
    ensures
        a + b + c == a + (b + c),
{
    assert(a + b + c =~= a + (b + c));
}

proof fn lemma_word_origin()
    ensures
        shell_word("APT::FTPArchive::Release::Origin=genmeta"@)
            == "'APT::FTPArchive::Release::Origin=genmeta'"@,
{
    reveal_strlit("'");
    reveal_strlit("APT::FTPArchive::Release::Origin=genmeta");
    reveal_strlit("'APT::FTPArchive::Release::Origin=genmeta'");
    lemma_plain_word("APT::FTPArchive::Release::Origin=genmeta"@);
    assert("'"@ + "APT::FTPArchive::Release::Origin=genmeta"@ + "'"@
        =~= "'APT::FTPArchive::Release::Origin=genmeta'"@);
}

proof fn lemma_word_label()
    ensures
        shell_word("APT::FTPArchive::Release::Label=genmeta"@)
            == "'APT::FTPArchive::Release::Label=genmeta'"@,
{
    reveal_strlit("'");
    reveal_strlit("APT::FTPArchive::Release::Label=genmeta");
    reveal_strlit("'APT::FTPArchive::Release::Label=genmeta'");
    lemma_plain_word("APT::FTPArchive::Release::Label=genmeta"@);
    assert("'"@ + "APT::FTPArchive::Release::Label=genmeta"@ + "'"@
        =~= "'APT::FTPArchive::Release::Label=genmeta'"@);
}

proof fn lemma_word_suite()
    ensures
        shell_word("APT::FTPArchive::Release::Suite=stable"@)
            == "'APT::FTPArchive::Release::Suite=stable'"@,
{
    reveal_strlit("'");
    reveal_strlit("APT::FTPArchive::Release::Suite=stable");
    reveal_strlit("'APT::FTPArchive::Release::Suite=stable'");
    lemma_plain_word("APT::FTPArchive::Release::Suite=stable"@);
    assert("'"@ + "APT::FTPArchive::Release::Suite=stable"@ + "'"@
        =~= "'APT::FTPArchive::Release::Suite=stable'"@);
}

proof fn lemma_word_version()
    ensures
        shell_word("APT::FTPArchive::Release::Version=2025"@)
            == "'APT::FTPArchive::Release::Version=2025'"@,
{
    reveal_strlit("'");
    reveal_strlit("APT::FTPArchive::Release::Version=2025");
    reveal_strlit("'APT::FTPArchive::Release::Version=2025'");
    lemma_plain_word("APT::FTPArchive::Release::Version=2025"@);
    assert("'"@ + "APT::FTPArchive::Release::Version=2025"@ + "'"@
        =~= "'APT::FTPArchive::Release::Version=2025'"@);
}

proof fn lemma_word_architectures()
    ensures
        shell_word("APT::FTPArchive::Release::Architectures=amd64 arm64 armhf i386"@)
            == "'APT::FTPArchive::Release::Architectures=amd64 arm64 armhf i386'"@,
{
    reveal_strlit("'");
    reveal_strlit("APT::FTPArchive::Release::Architectures=amd64 arm64 armhf i386");
    reveal_strlit("'APT::FTPArchive::Release::Architectures=amd64 arm64 armhf i386'");
    lemma_plain_word("APT::FTPArchive::Release::Architectures=amd64 arm64 armhf i386"@);
    assert("'"@ + "APT::FTPArchive::Release::Architectures=amd64 arm64 armhf i386"@ + "'"@
        =~= "'APT::FTPArchive::Release::Architectures=amd64 arm64 armhf i386'"@);
}

proof fn lemma_word_components()
    ensures
        shell_word("APT::FTPArchive::Release::Components=main contrib non-free"@)
            == "'APT::FTPArchive::Release::Components=main contrib non-free'"@,
{
    reveal_strlit("'");
    reveal_strlit("APT::FTPArchive::Release::Components=main contrib non-free");
    reveal_strlit("'APT::FTPArchive::Release::Components=main contrib non-free'");
    lemma_plain_word("APT::FTPArchive::Release::Components=main contrib non-free"@);
    assert("'"@ + "APT::FTPArchive::Release::Components=main contrib non-free"@ + "'"@
        =~= "'APT::FTPArchive::Release::Components=main contrib non-free'"@);
}

proof fn lemma_word_description()
    ensures
        shell_word("APT::FTPArchive::Release::Description=Genmeta Package Archives"@)
            == "'APT::FTPArchive::Release::Description=Genmeta Package Archives'"@,
{
    reveal_strlit("'");
    reveal_strlit("APT::FTPArchive::Release::Description=Genmeta Package Archives");
    reveal_strlit("'APT::FTPArchive::Release::Description=Genmeta Package Archives'");
    lemma_plain_word("APT::FTPArchive::Release::Description=Genmeta Package Archives"@);
    assert("'"@ + "APT::FTPArchive::Release::Description=Genmeta Package Archives"@ + "'"@
        =~= "'APT::FTPArchive::Release::Description=Genmeta Package Archives'"@);
}

proof fn lemma_word_codename(suite: Seq<char>)
    requires
        lacks(suite, '\''),
    ensures
        shell_word("APT::FTPArchive::Release::Codename="@ + suite)
            == "'APT::FTPArchive::Release::Codename="@ + suite + "'"@,
{
    reveal_strlit("'");
    reveal_strlit("APT::FTPArchive::Release::Codename=");
    reveal_strlit("'APT::FTPArchive::Release::Codename=");
    lemma_plain_word("APT::FTPArchive::Release::Codename="@ + suite);
    assert("'"@ + ("APT::FTPArchive::Release::Codename="@ + suite) + "'"@
        =~= "'APT::FTPArchive::Release::Codename="@ + suite + "'"@);
}

proof fn lemma_word_places(suite: Seq<char>)
    requires
        lacks(suite, '\''),
    ensures
        shell_word("dists/"@ + suite) == "'dists/"@ + suite + "'"@,
        shell_word("dists/"@ + suite + "/Release"@) == "'dists/"@ + suite + "/Release'"@,
{
    reveal_strlit("'");
    reveal_strlit("dists/");
    reveal_strlit("'dists/");
    reveal_strlit("/Release");
    reveal_strlit("/Release'");
    lemma_plain_word("dists/"@ + suite);
    lemma_plain_word("dists/"@ + suite + "/Release"@);
    assert("'"@ + ("dists/"@ + suite) + "'"@ =~= "'dists/"@ + suite + "'"@);
    assert("'"@ + ("dists/"@ + suite + "/Release"@) + "'"@ =~= "'dists/"@ + suite + "/Release'"@);
}

proof fn lemma_release_making(suite: Seq<char>)
    requires
        lacks(suite, '\''),
    ensures
        release_commands(suite) == release_making(suite),
{
    lemma_word_origin();
    lemma_word_label();
    lemma_word_suite();
    lemma_word_version();
    lemma_word_architectures();
    lemma_word_components();
    lemma_word_description();
    lemma_word_codename(suite);
    lemma_word_places(suite);
}

proof fn lemma_import_ends()
    ensures
        " ]; then echo 'gpg fingerprint did not match imported key' >&2; exit 1; fi\ngpg --batch --yes --homedir /tmp/xtask-apt-gpg --pinentry-mode loopback --default-key "@
            == " ]; then echo 'gpg fingerprint did not match imported key' >&2; exit 1; fi\n"@
            + "gpg --batch --yes --homedir /tmp/xtask-apt-gpg --pinentry-mode loopback --default-key "@,
{
    reveal_strlit(
        " ]; then echo 'gpg fingerprint did not match imported key' >&2; exit 1; fi\ngpg --batch --yes --homedir /tmp/xtask-apt-gpg --pinentry-mode loopback --default-key ",
    );
    reveal_strlit(
        " ]; then echo 'gpg fingerprint did not match imported key' >&2; exit 1; fi\n",
    );
    reveal_strlit(
        "gpg --batch --yes --homedir /tmp/xtask-apt-gpg --pinentry-mode loopback --default-key ",
    );
    assert(" ]; then echo 'gpg fingerprint did not match imported key' >&2; exit 1; fi\ngpg --batch --yes --homedir /tmp/xtask-apt-gpg --pinentry-mode loopback --default-key "@
        =~= " ]; then echo 'gpg fingerprint did not match imported key' >&2; exit 1; fi\n"@
        + "gpg --batch --yes --homedir /tmp/xtask-apt-gpg --pinentry-mode loopback --default-key "@);
}

proof fn lemma_signature_ends()
    ensures
        "/Release\ngpg --batch --yes --homedir /tmp/xtask-apt-gpg --pinentry-mode loopback --default-key "@
            == "/Release\n"@
            + "gpg --batch --yes --homedir /tmp/xtask-apt-gpg --pinentry-mode loopback --default-key "@,
{
    reveal_strlit(
        "/Release\ngpg --batch --yes --homedir /tmp/xtask-apt-gpg --pinentry-mode loopback --default-key ",
    );
    reveal_strlit("/Release\n");
    reveal_strlit(
        "gpg --batch --yes --homedir /tmp/xtask-apt-gpg --pinentry-mode loopback --default-key ",
    );
    assert("/Release\ngpg --batch --yes --homedir /tmp/xtask-apt-gpg --pinentry-mode loopback --default-key "@
        =~= "/Release\n"@
        + "gpg --batch --yes --homedir /tmp/xtask-apt-gpg --pinentry-mode loopback --default-key "@);
}

/// Commands that are put together one after the other are the commands put together.
proof fn lemma_commands_part(
    a: Seq<char>,
    word: Seq<char>,
    b: Seq<char>,
    fi: Seq<char>,
    gpg: Seq<char>,
    options: (Seq<char>, Seq<char>),
    detach: Seq<char>,
    suite: Seq<char>,
    apart: Seq<char>,
    release: Seq<char>,
    clear: Seq<char>,
    together: Seq<char>,
)
    ensures
        a + word + b + word + (fi + gpg) + options.0 + options.1 + detach + suite + apart + suite
            + (release + gpg) + options.0 + options.1 + clear + suite + together + suite + release
            == (a + word + b + word + fi) + (gpg + (options.0 + options.1) + detach + suite + apart
            + suite + release) + (gpg + (options.0 + options.1) + clear + suite + together + suite
            + release),
{
    let both = options.0 + options.1;
    let import = a + word + b + word + fi;
    let first = gpg + both + detach + suite + apart + suite + release;
    lemma_sum_is_associative(a + word + b + word, fi, gpg);
    lemma_sum_is_associative(import + gpg, options.0, options.1);
    assert(import + gpg + both + detach + suite + apart + suite + release =~= import + first);
    lemma_sum_is_associative(import + gpg + both + detach + suite + apart + suite, release, gpg);
    lemma_sum_is_associative(import + first + gpg, options.0, options.1);
    let rest = import + first;
    assert(rest + gpg + both + clear + suite + together + suite + release =~= rest + (gpg + both
        + clear + suite + together + suite + release));
}

/// Whatever the suite and the fingerprint, the script that makes the metadata of a Debian
/// repository ends in these commands, in this order: the release is made (of a suite without
/// quotes, in these words), the key is imported and compared with the fingerprint, the release
/// is signed apart into `Release.gpg`, and it is signed together with its text into `InRelease`.
/// Both signatures are made with the key of the fingerprint, and with the passphrase file
/// exactly where there is a passphrase.
pub proof fn lemma_releases_are_signed(
    suite: Seq<char>,
    fingerprint: Seq<char>,
    has_passphrase: bool,
)
    ensures
        ({
            let script = metadata_script(suite, fingerprint, has_passphrase);
            let word = shell_word(normal_fingerprint(fingerprint));
            let options = if has_passphrase {
                word + " --passphrase-file /apt-secrets/passphrase"@
            } else {
                word
            };
            let signing = key_import(word) + detached_signature(suite, options)
                + clear_signature(suite, options);
            &&& has_suffix(script, signing)
            &&& lacks(suite, '\'') ==> has_suffix(script, release_making(suite) + signing)
        }),
{
    let script = metadata_script(suite, fingerprint, has_passphrase);
    let word = shell_word(normal_fingerprint(fingerprint));
    let passphrase = if has_passphrase {
        " --passphrase-file /apt-secrets/passphrase"@
    } else {
        ""@
    };
    let options = if has_passphrase {
        word + " --passphrase-file /apt-secrets/passphrase"@
    } else {
        word
    };
    let end = key_import(word) + detached_signature(suite, options) + clear_signature(
        suite,
        options,
    );
    lemma_signing_commands(suite, word, has_passphrase);
    assert(signing_commands(suite, word, passphrase) == end);
    let start = indexing_commands(suite, 12);
    let before = start + release_commands(suite);
    assert(script == before + end);
    assert(script.subrange(before.len() as int, script.len() as int) =~= end);
    if lacks(suite, '\'') {
        let release = release_making(suite);
        lemma_release_making(suite);
        lemma_sum_is_associative(start, release, end);
        assert(script.subrange(start.len() as int, script.len() as int) =~= release + end);
    }
}

proof fn lemma_index_is_made(suite: Seq<char>, at: int, count: int)
    requires
        0 <= at < count <= 12,
    ensures
        contains_text(indexing_commands(suite, count), index_commands(suite, at)),
    decreases count,
{
    let none = Seq::<char>::empty();
    let before = indexing_commands(suite, count - 1);
    let last = index_commands(suite, count - 1);
    assert(indexing_commands(suite, count) == before + last);
    if at == count - 1 {
        lemma_middle_is_contained(before, last, none);
        assert(before + last + none =~= before + last);
    } else {
        lemma_index_is_made(suite, at, count - 1);
        lemma_middle_is_contained(none, before, last);
        assert(none + before + last =~= before + last);
        lemma_contained_twice(before + last, before, index_commands(suite, at));
    }
}

/// The script that makes the metadata of a Debian repository makes the index of every component
/// for every architecture, from the part of the pool that holds the component.
pub proof fn lemma_every_index_is_made(
    suite: Seq<char>,
    fingerprint: Seq<char>,
    has_passphrase: bool,
    component: Seq<char>,
    architecture: Seq<char>,
)
    requires
        is_component(component),
        is_architecture(architecture),
    ensures
        contains_text(
            metadata_script(suite, fingerprint, has_passphrase),
            index_making(suite, component, architecture),
        ),
{
    let c: int = if component == "main"@ {
        0
    } else if component == "contrib"@ {
        1
    } else {
        2
    };
    let a: int = if architecture == "amd64"@ {
        0
    } else if architecture == "arm64"@ {
        1
    } else if architecture == "armhf"@ {
        2
    } else {
        3
    };
    let at = 4 * c + a;
    assert(at / 4 == c && at % 4 == a);
    reveal(index_making);
    assert(index_commands(suite, at) == index_making(suite, component, architecture));
    lemma_index_is_made(suite, at, 12);
    let none = Seq::<char>::empty();
    let start = indexing_commands(suite, 12);
    let script = metadata_script(suite, fingerprint, has_passphrase);
    let rest = script.skip(start.len() as int);
    assert(none + start + rest =~= script);
    lemma_middle_is_contained(none, start, rest);
    lemma_contained_twice(
        script,
        start,
        index_making(suite, component, architecture),
    );
}

/// The script works in the repository, and stops at the first command that fails.
pub proof fn lemma_script_works_in_the_repository(
    suite: Seq<char>,
    fingerprint: Seq<char>,
    has_passphrase: bool,
)
    ensures
        has_prefix(
            metadata_script(suite, fingerprint, has_passphrase),
            "set -eu\nexport DEBIAN_FRONTEND=noninteractive\napt-get update -qq\napt-get install --assume-yes -qq dpkg-dev apt-utils gnupg gzip\ncd /apt-repository\n"@,
        ),
{
    let script = metadata_script(suite, fingerprint, has_passphrase);
    let start =
        "set -eu\nexport DEBIAN_FRONTEND=noninteractive\napt-get update -qq\napt-get install --assume-yes -qq dpkg-dev apt-utils gnupg gzip\ncd /apt-repository\n"@;
    lemma_indexing_starts(suite, 12);
    let indexing = indexing_commands(suite, 12);
    assert(indexing.subrange(0, start.len() as int) == start);
    assert(script.subrange(0, start.len() as int) =~= indexing.subrange(0, start.len() as int));
}

proof fn lemma_indexing_starts(suite: Seq<char>, count: int)
    requires
        0 <= count,
    ensures
        has_prefix(indexing_commands(suite, count), indexing_commands(suite, 0)),
    decreases count,
{
    let start = indexing_commands(suite, 0);
    let all = indexing_commands(suite, count);
    if count > 0 {
        lemma_indexing_starts(suite, count - 1);
        let before = indexing_commands(suite, count - 1);
        assert(all.subrange(0, start.len() as int) =~= before.subrange(0, start.len() as int));
    } else {
        assert(all.subrange(0, start.len() as int) =~= start);
    }
}

proof fn lemma_blocks_of_component(suite: Seq<char>, c: int, component: Seq<char>)
    requires
        0 <= c < 3,
        component == seq!["main"@, "contrib"@, "non-free"@][c],
    ensures
        indexing_commands(suite, 4 * c + 4) == indexing_commands(suite, 4 * c) + index_making(
            suite,
            component,
            "amd64"@,
        ) + index_making(suite, component, "arm64"@) + index_making(suite, component, "armhf"@)
            + index_making(suite, component, "i386"@),
{
    lemma_block_at(suite, c, 0, component, "amd64"@);
    lemma_block_at(suite, c, 1, component, "arm64"@);
    lemma_block_at(suite, c, 2, component, "armhf"@);
    lemma_block_at(suite, c, 3, component, "i386"@);
}

proof fn lemma_block_at(
    suite: Seq<char>,
    c: int,
    a: int,
    component: Seq<char>,
    architecture: Seq<char>,
)
    requires
        0 <= c < 3,
        0 <= a < 4,
        component == seq!["main"@, "contrib"@, "non-free"@][c],
        architecture == seq!["amd64"@, "arm64"@, "armhf"@, "i386"@][a],
    ensures
        indexing_commands(suite, 4 * c + a + 1) == indexing_commands(suite, 4 * c + a)
            + index_making(suite, component, architecture),
{
    reveal(index_making);
    let at = 4 * c + a;
    assert(at / 4 == c && at % 4 == a);
    assert(index_commands(suite, at) == index_making(suite, component, architecture));
}

/// The commands that make all indexes of a suite: of every component for every architecture.
pub open spec fn all_indexes_making(suite: Seq<char>) -> Seq<char> {
    "set -eu\nexport DEBIAN_FRONTEND=noninteractive\napt-get update -qq\napt-get install --assume-yes -qq dpkg-dev apt-utils gnupg gzip\ncd /apt-repository\n"@
        + index_making(suite, "main"@, "amd64"@) + index_making(suite, "main"@, "arm64"@)
        + index_making(suite, "main"@, "armhf"@) + index_making(suite, "main"@, "i386"@)
        + index_making(suite, "contrib"@, "amd64"@) + index_making(suite, "contrib"@, "arm64"@)
        + index_making(suite, "contrib"@, "armhf"@) + index_making(suite, "contrib"@, "i386"@)
        + index_making(suite, "non-free"@, "amd64"@) + index_making(suite, "non-free"@, "arm64"@)
        + index_making(suite, "non-free"@, "armhf"@) + index_making(suite, "non-free"@, "i386"@)
}

/// The script is made of these commands and no others, in this order: it goes to the repository,
/// makes the index of each component for each architecture, makes the release, imports and
/// compares the key, and signs the release apart and together with its text.
pub proof fn lemma_script_holds_nothing_else(
    suite: Seq<char>,
    fingerprint: Seq<char>,
    has_passphrase: bool,
)
    requires
        lacks(suite, '\''),
    ensures
        ({
            let word = shell_word(normal_fingerprint(fingerprint));
            let options = if has_passphrase {
                word + " --passphrase-file /apt-secrets/passphrase"@
            } else {
                word
            };
            metadata_script(suite, fingerprint, has_passphrase) == all_indexes_making(suite)
                + release_making(suite) + (key_import(word) + detached_signature(suite, options)
                + clear_signature(suite, options))
        }),
{
    lemma_blocks_of_component(suite, 0, "main"@);
    lemma_blocks_of_component(suite, 1, "contrib"@);
    lemma_blocks_of_component(suite, 2, "non-free"@);
    assert(indexing_commands(suite, 12) == all_indexes_making(suite));
    lemma_release_making(suite);
    lemma_signing_commands(suite, shell_word(normal_fingerprint(fingerprint)), has_passphrase);
}

proof fn lemma_signing_commands(suite: Seq<char>, word: Seq<char>, has_passphrase: bool)
    ensures
        ({
            let passphrase = if has_passphrase {
                " --passphrase-file /apt-secrets/passphrase"@
            } else {
                ""@
            };
            let options = if has_passphrase {
                word + " --passphrase-file /apt-secrets/passphrase"@
            } else {
                word
            };
            signing_commands(suite, word, passphrase) == key_import(word) + detached_signature(
                suite,
                options,
            ) + clear_signature(suite, options)
        }),
{
    let passphrase = if has_passphrase {
        " --passphrase-file /apt-secrets/passphrase"@
    } else {
        ""@
    };
    let options = if has_passphrase {
        word + " --passphrase-file /apt-secrets/passphrase"@
    } else {
        word
    };
    reveal_strlit("");
    assert(options =~= word + passphrase);
    lemma_import_ends();
    lemma_signature_ends();
    lemma_commands_part(
        "rm -rf /tmp/xtask-apt-gpg\nmkdir -m 700 /tmp/xtask-apt-gpg\ngpg --batch --homedir /tmp/xtask-apt-gpg --import /apt-secrets/key.asc\nactual=\"$(gpg --batch --homedir /tmp/xtask-apt-gpg --with-colons --fingerprint "@,
        word,
        " | awk -F: '$1 == \"fpr\" { print toupper($10); exit }')\"\nif [ \"$actual\" != "@,
        " ]; then echo 'gpg fingerprint did not match imported key' >&2; exit 1; fi\n"@,
        "gpg --batch --yes --homedir /tmp/xtask-apt-gpg --pinentry-mode loopback --default-key "@,
        (word, passphrase),
        " --detach-sign --armor -o dists/"@,
        suite,
        "/Release.gpg dists/"@,
        "/Release\n"@,
        " --clearsign -o dists/"@,
        "/InRelease dists/"@,
    );
}

/// A fingerprint is compared without its spaces and in upper case, character by character.
pub proof fn lemma_fingerprints_lose_spaces(before: Seq<char>, c: char)
    ensures
        normal_fingerprint(Seq::empty()) == Seq::<char>::empty(),
        is_space(c) ==> normal_fingerprint(before.push(c)) == normal_fingerprint(before),
        !is_space(c) ==> normal_fingerprint(before.push(c)) == normal_fingerprint(before)
            + upper_case(c),
{
    assert(before.push(c).drop_last() =~= before);
}

/// Once it is filled, the metadata of an RPM repository is made over its directory.
pub proof fn lemma_rpm_metadata_is_made(
    publication: PublicationView,
    contract: ReleaseContract,
    directory: Seq<char>,
    conditions: Option<Map<Seq<char>, UploadConditionView>>,
)
    requires
        publication.target is Rpm,
    ensures
        advanced(
            publication,
            contract,
            PublicationStageView::Filling { directory, conditions },
            PublicationEventView::Done,
        ) matches Ok(next) && next.stage == (PublicationStageView::Sealing {
            directory,
            conditions,
        }) && next.action == (PublicationActionView::RunContainer {
            words: seq![
                "run"@,
                "--rm"@,
                "--volume"@,
                directory + ":/rpm-repository"@,
                "fedora:40"@,
                "/bin/sh"@,
                "-lc"@,
                "set -euo pipefail; dnf -y -q install createrepo_c; cd /rpm-repository; createrepo_c ."@,
            ],
        }),
{
    lemma_words_of_one_mount(
        directory + ":/rpm-repository"@,
        "fedora:40"@,
        "set -euo pipefail; dnf -y -q install createrepo_c; cd /rpm-repository; createrepo_c ."@,
    );
}

proof fn lemma_words_of_one_mount(mount: Seq<char>, image: Seq<char>, script: Seq<char>)
    ensures
        container_words(seq![mount], image, script) == seq![
            "run"@,
            "--rm"@,
            "--volume"@,
            mount,
            image,
            "/bin/sh"@,
            "-lc"@,
            script,
        ],
{
    reveal_with_fuel(mount_words, 2);
    assert(seq![mount].drop_last() =~= Seq::empty());
    assert(container_words(seq![mount], image, script) =~= seq![
        "run"@,
        "--rm"@,
        "--volume"@,
        mount,
        image,
        "/bin/sh"@,
        "-lc"@,
        script,
    ]);
}

proof fn lemma_words_of_two_mounts(
    first: Seq<char>,
    second: Seq<char>,
    image: Seq<char>,
    script: Seq<char>,
)
    ensures
        container_words(seq![first, second], image, script) == seq![
            "run"@,
            "--rm"@,
            "--volume"@,
            first,
            "--volume"@,
            second,
            image,
            "/bin/sh"@,
            "-lc"@,
            script,
        ],
{
    reveal_with_fuel(mount_words, 3);
    assert(seq![first, second].drop_last() =~= seq![first]);
    assert(seq![first].drop_last() =~= Seq::empty());
    assert(container_words(seq![first, second], image, script) =~= seq![
        "run"@,
        "--rm"@,
        "--volume"@,
        first,
        "--volume"@,
        second,
        image,
        "/bin/sh"@,
        "-lc"@,
        script,
    ]);
}

/// Once it is filled, the signing key and the passphrase of the target of a Debian repository
/// are written, and its metadata is made by a container that sees the directory of the
/// repository and, read-only, the secrets.
pub proof fn lemma_deb_metadata_is_made(
    publication: PublicationView,
    contract: ReleaseContract,
    directory: Seq<char>,
    conditions: Option<Map<Seq<char>, UploadConditionView>>,
    secrets: Seq<char>,
)
    requires
        publication.target is Deb,
    ensures
        publication.target matches S3PublishTargetView::Deb(target) && advanced(
            publication,
            contract,
            PublicationStageView::Filling { directory, conditions },
            PublicationEventView::Done,
        ) matches Ok(filled) && {
            &&& filled.stage == (PublicationStageView::Protecting { directory, conditions })
            &&& filled.action == (PublicationActionView::WriteSecrets {
                signing_key: target.signing_key,
                signing_passphrase: target.signing_passphrase,
            })
            &&& advanced(
                publication,
                contract,
                filled.stage,
                PublicationEventView::Directory { path: secrets },
            ) matches Ok(next)
            &&& next.stage == (PublicationStageView::Sealing { directory, conditions })
            &&& next.action == (PublicationActionView::RunContainer {
                words: seq![
                    "run"@,
                    "--rm"@,
                    "--volume"@,
                    directory + ":/apt-repository"@,
                    "--volume"@,
                    secrets + ":/apt-secrets:ro"@,
                    "debian:bookworm"@,
                    "/bin/sh"@,
                    "-lc"@,
                    metadata_script(
                        target.suite,
                        target.fingerprint,
                        target.signing_passphrase is Some,
                    ),
                ],
            })
        },
{
    let target = publication.target->Deb_0;
    lemma_words_of_two_mounts(
        directory + ":/apt-repository"@,
        secrets + ":/apt-secrets:ro"@,
        "debian:bookworm"@,
        metadata_script(target.suite, target.fingerprint, target.signing_passphrase is Some),
    );
}

/// Once its metadata is made, the directory of a repository is walked.
pub proof fn lemma_repository_is_walked(
    publication: PublicationView,
    contract: ReleaseContract,
    directory: Seq<char>,
    conditions: Option<Map<Seq<char>, UploadConditionView>>,
)
    ensures
        advanced(
            publication,
            contract,
            PublicationStageView::Sealing { directory, conditions },
            PublicationEventView::Done,
        ) matches Ok(next) && next.stage == (PublicationStageView::Walking {
            directory,
            conditions,
        }) && next.action == (PublicationActionView::WalkRepository { directory }),
{
}

} // verus!
