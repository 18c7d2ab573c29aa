//! What the two script templates say once they are filled in.

use super::config::{GO_SCRIPT_TMPL, RUST_SCRIPT_TMPL};
use super::plan::rendered_script;
use crate::text::{
    law_nothing_to_replace, law_replaced_absent, law_replaced_by_itself, law_replaced_split,
    replaced, stands_at,
};
use vstd::prelude::*;

verus! {

/// The text of a script: `middle` is what it does in the target directory,
/// `end` what it says between the bundle's path and the archive's name.
pub open spec fn script_text(
    middle: Seq<char>,
    end: Seq<char>,
    local_file_name: Seq<char>,
    mod_dir: Seq<char>,
    output_path: Seq<char>,
) -> Seq<char> {
    r#"#!/bin/bash

set -e

toplevel=$(tar tf ""#@ + local_file_name + r#"" | head -1)
if [ -z ""#@ + mod_dir + r#"" ] ; then
    targetdir="${toplevel}"
else
    targetdir=""#@ + mod_dir + r#""
fi

tar xf ""#@ + local_file_name + middle + output_path + end + local_file_name + r#"" ""#@
        + output_path + r#""
"#@
}

/// What the Go script does in the target directory.
pub open spec fn go_middle() -> Seq<char> {
    r#""

pushd "${targetdir}"
    go list -mod=readonly ./... >/dev/null && go mod vendor
popd

tar czf ""#@
}

/// What the Go script says behind the bundle's path.
pub open spec fn go_end() -> Seq<char> {
    r#"" "${targetdir}"/vendor
rm -rf "${targetdir}"
touch -r ""#@
}

/// What the Rust script does in the target directory.
pub open spec fn rust_middle() -> Seq<char> {
    r#""

pushd "${targetdir}"
    mkdir -p .cargo
    cargo metadata --locked --format-version 1 >/dev/null && cargo vendor --locked > .cargo/config.toml
    cargo deny --config /deny.toml check --disable-fetch licenses bans sources
popd

tar czf ""#@
}

/// What the Rust script says behind the bundle's path.
pub open spec fn rust_end() -> Seq<char> {
    r#"" -C "${targetdir}" vendor .cargo/config.toml
rm -rf "${targetdir}"
touch -r ""#@
}

/// Whether a piece of a template cannot be mistaken for a placeholder or a
/// part of one: it is bounded by quotes and holds no underscore.
spec fn is_fixed(piece: Seq<char>) -> bool {
    &&& piece.len() > 0
    &&& piece[0] == '"'
    &&& piece.last() == '"'
    &&& forall|i: int| 0 <= i < piece.len() ==> piece[i] != '_'
}

/// The Go template is its fixed text around the placeholders.
proof fn lemma_go_template()
    ensures
        GO_SCRIPT_TMPL@ == script_text(
            go_middle(),
            go_end(),
            "__LOCAL_FILE_NAME__"@,
            "__MOD_DIR__"@,
            "__OUTPUT__"@,
        ),
        is_fixed(go_middle()),
        is_fixed(go_end()),
{
    reveal_strlit(r#"#!/bin/bash

set -e

toplevel=$(tar tf "__LOCAL_FILE_NAME__" | head -1)
if [ -z "__MOD_DIR__" ] ; then
    targetdir="${toplevel}"
else
    targetdir="__MOD_DIR__"
fi

tar xf "__LOCAL_FILE_NAME__"

pushd "${targetdir}"
    go list -mod=readonly ./... >/dev/null && go mod vendor
popd

tar czf "__OUTPUT__" "${targetdir}"/vendor
rm -rf "${targetdir}"
touch -r "__LOCAL_FILE_NAME__" "__OUTPUT__"
"#);
    reveal_strlit(r#"#!/bin/bash

set -e

toplevel=$(tar tf ""#);
    reveal_strlit("__LOCAL_FILE_NAME__");
    reveal_strlit(r#"" | head -1)
if [ -z ""#);
    reveal_strlit("__MOD_DIR__");
    reveal_strlit(r#"" ] ; then
    targetdir="${toplevel}"
else
    targetdir=""#);
    reveal_strlit(r#""
fi

tar xf ""#);
    reveal_strlit(r#""

pushd "${targetdir}"
    go list -mod=readonly ./... >/dev/null && go mod vendor
popd

tar czf ""#);
    reveal_strlit("__OUTPUT__");
    reveal_strlit(r#"" "${targetdir}"/vendor
rm -rf "${targetdir}"
touch -r ""#);
    reveal_strlit(r#"" ""#);
    reveal_strlit(r#""
"#);
    assert(GO_SCRIPT_TMPL@ =~= script_text(
        go_middle(),
        go_end(),
        "__LOCAL_FILE_NAME__"@,
        "__MOD_DIR__"@,
        "__OUTPUT__"@,
    ));
}

/// The Rust template is its fixed text around the placeholders.
proof fn lemma_rust_template()
    ensures
        RUST_SCRIPT_TMPL@ == script_text(
            rust_middle(),
            rust_end(),
            "__LOCAL_FILE_NAME__"@,
            "__MOD_DIR__"@,
            "__OUTPUT__"@,
        ),
        is_fixed(rust_middle()),
        is_fixed(rust_end()),
{
    reveal_strlit(r#"#!/bin/bash

set -e

toplevel=$(tar tf "__LOCAL_FILE_NAME__" | head -1)
if [ -z "__MOD_DIR__" ] ; then
    targetdir="${toplevel}"
else
    targetdir="__MOD_DIR__"
fi

tar xf "__LOCAL_FILE_NAME__"

pushd "${targetdir}"
    mkdir -p .cargo
    cargo metadata --locked --format-version 1 >/dev/null && cargo vendor --locked > .cargo/config.toml
    cargo deny --config /deny.toml check --disable-fetch licenses bans sources
popd

tar czf "__OUTPUT__" -C "${targetdir}" vendor .cargo/config.toml
rm -rf "${targetdir}"
touch -r "__LOCAL_FILE_NAME__" "__OUTPUT__"
"#);
    reveal_strlit(r#"#!/bin/bash

set -e

toplevel=$(tar tf ""#);
    reveal_strlit("__LOCAL_FILE_NAME__");
    reveal_strlit(r#"" | head -1)
if [ -z ""#);
    reveal_strlit("__MOD_DIR__");
    reveal_strlit(r#"" ] ; then
    targetdir="${toplevel}"
else
    targetdir=""#);
    reveal_strlit(r#""
fi

tar xf ""#);
    reveal_strlit(r#""

pushd "${targetdir}"
    mkdir -p .cargo
    cargo metadata --locked --format-version 1 >/dev/null && cargo vendor --locked > .cargo/config.toml
    cargo deny --config /deny.toml check --disable-fetch licenses bans sources
popd

tar czf ""#);
    reveal_strlit("__OUTPUT__");
    reveal_strlit(r#"" -C "${targetdir}" vendor .cargo/config.toml
rm -rf "${targetdir}"
touch -r ""#);
    reveal_strlit(r#"" ""#);
    reveal_strlit(r#""
"#);
    assert(RUST_SCRIPT_TMPL@ =~= script_text(
        rust_middle(),
        rust_end(),
        "__LOCAL_FILE_NAME__"@,
        "__MOD_DIR__"@,
        "__OUTPUT__"@,
    ));
}

/// Whether a pattern can only be found inside what is filled into a template:
/// it holds an underscore and no quote.
spec fn is_placeholder(pattern: Seq<char>) -> bool {
    &&& pattern.len() > 0
    &&& pattern[0] == '_'
    &&& !pattern.contains('"')
}

/// A piece without an underscore is left as it is.
proof fn lemma_fixed(piece: Seq<char>, pattern: Seq<char>, value: Seq<char>)
    requires
        is_placeholder(pattern),
        forall|i: int| 0 <= i < piece.len() ==> piece[i] != '_',
    ensures
        replaced(piece, pattern, value) == piece,
{
    assert forall|at: int| !stands_at(piece, pattern, at) by {
        if stands_at(piece, pattern, at) {
            assert(piece.subrange(at, at + pattern.len())[0] == piece[at]);
        }
    }
    law_replaced_absent(piece, pattern, value);
}

/// Replacing a placeholder in a script replaces it in what was filled in.
proof fn lemma_pass(
    middle: Seq<char>,
    end: Seq<char>,
    x: Seq<char>,
    y: Seq<char>,
    z: Seq<char>,
    pattern: Seq<char>,
    value: Seq<char>,
)
    requires
        is_fixed(middle),
        is_fixed(end),
        is_placeholder(pattern),
    ensures
        replaced(script_text(middle, end, x, y, z), pattern, value) == script_text(
            middle,
            end,
            replaced(x, pattern, value),
            replaced(y, pattern, value),
            replaced(z, pattern, value),
        ),
{
    reveal_strlit(r#"#!/bin/bash

set -e

toplevel=$(tar tf ""#);
    reveal_strlit(r#"" | head -1)
if [ -z ""#);
    reveal_strlit(r#"" ] ; then
    targetdir="${toplevel}"
else
    targetdir=""#);
    reveal_strlit(r#""
fi

tar xf ""#);
    reveal_strlit(r#"" ""#);
    reveal_strlit(r#""
"#);
    let p0 = r#"#!/bin/bash

set -e

toplevel=$(tar tf ""#@;
    let p2 = r#"" | head -1)
if [ -z ""#@;
    let p4 = r#"" ] ; then
    targetdir="${toplevel}"
else
    targetdir=""#@;
    let p6 = r#""
fi

tar xf ""#@;
    let p12 = r#"" ""#@;
    let p14 = r#""
"#@;
    lemma_fixed(p0, pattern, value);
    lemma_fixed(p2, pattern, value);
    lemma_fixed(p4, pattern, value);
    lemma_fixed(p6, pattern, value);
    lemma_fixed(p12, pattern, value);
    lemma_fixed(p14, pattern, value);
    lemma_fixed(middle, pattern, value);
    lemma_fixed(end, pattern, value);
    let t0 = p0;
    let t1 = t0 + x;
    law_replaced_split(t0, x, pattern, value, '"');
    let t2 = t1 + p2;
    law_replaced_split(t1, p2, pattern, value, '"');
    let t3 = t2 + y;
    law_replaced_split(t2, y, pattern, value, '"');
    let t4 = t3 + p4;
    law_replaced_split(t3, p4, pattern, value, '"');
    let t5 = t4 + y;
    law_replaced_split(t4, y, pattern, value, '"');
    let t6 = t5 + p6;
    law_replaced_split(t5, p6, pattern, value, '"');
    let t7 = t6 + x;
    law_replaced_split(t6, x, pattern, value, '"');
    let t8 = t7 + middle;
    law_replaced_split(t7, middle, pattern, value, '"');
    let t9 = t8 + z;
    law_replaced_split(t8, z, pattern, value, '"');
    let t10 = t9 + end;
    law_replaced_split(t9, end, pattern, value, '"');
    let t11 = t10 + x;
    law_replaced_split(t10, x, pattern, value, '"');
    let t12 = t11 + p12;
    law_replaced_split(t11, p12, pattern, value, '"');
    let t13 = t12 + z;
    law_replaced_split(t12, z, pattern, value, '"');
    let t14 = t13 + p14;
    law_replaced_split(t13, p14, pattern, value, '"');
    assert(t14 == script_text(middle, end, x, y, z));
}

/// A filled-in template is its fixed text, with the archive's name, the
/// directory to vendor from and the bundle's path in the places of the
/// placeholders. Placeholders in a value are filled in too where they come
/// later in the order.
proof fn lemma_rendered(
    middle: Seq<char>,
    end: Seq<char>,
    local_file_name: Seq<char>,
    mod_dir: Seq<char>,
    output_path: Seq<char>,
)
    requires
        is_fixed(middle),
        is_fixed(end),
    ensures
        rendered_script(
            script_text(middle, end, "__LOCAL_FILE_NAME__"@, "__MOD_DIR__"@, "__OUTPUT__"@),
            local_file_name,
            mod_dir,
            output_path,
        ) == script_text(
            middle,
            end,
            filled_name(local_file_name, mod_dir, output_path),
            filled_dir(mod_dir, output_path),
            output_path,
        ),
{
    reveal_strlit("__LOCAL_FILE_NAME__");
    reveal_strlit("__MOD_DIR__");
    reveal_strlit("__OUTPUT__");
    let name = "__LOCAL_FILE_NAME__"@;
    let dir = "__MOD_DIR__"@;
    let output = "__OUTPUT__"@;
    assert(is_placeholder(name));
    assert(is_placeholder(dir));
    assert(is_placeholder(output));
    lemma_whole(name, local_file_name);
    lemma_whole(dir, mod_dir);
    lemma_whole(output, output_path);
    lemma_pass(middle, end, name, dir, output, name, local_file_name);
    lemma_pass(middle, end, local_file_name, dir, output, dir, mod_dir);
    lemma_pass(
        middle,
        end,
        replaced(local_file_name, dir, mod_dir),
        mod_dir,
        output,
        output,
        output_path,
    );
}

/// A text that is the pattern becomes the value.
proof fn lemma_whole(pattern: Seq<char>, value: Seq<char>)
    requires
        pattern.len() > 0,
    ensures
        replaced(pattern, pattern, value) == value,
{
    let width = pattern.len() as int;
    assert(pattern.take(width) =~= pattern);
    assert(replaced(pattern.skip(width), pattern, value) =~= Seq::empty());
    assert(value + Seq::<char>::empty() =~= value);
}

/// An archive's name with the later placeholders filled in.
pub open spec fn filled_name(
    local_file_name: Seq<char>,
    mod_dir: Seq<char>,
    output_path: Seq<char>,
) -> Seq<char> {
    replaced(replaced(local_file_name, "__MOD_DIR__"@, mod_dir), "__OUTPUT__"@, output_path)
}

/// A directory with the later placeholder filled in.
pub open spec fn filled_dir(mod_dir: Seq<char>, output_path: Seq<char>) -> Seq<char> {
    replaced(mod_dir, "__OUTPUT__"@, output_path)
}

/// What the Go script says, whatever is filled in.
pub proof fn law_go_script(
    local_file_name: Seq<char>,
    mod_dir: Seq<char>,
    output_path: Seq<char>,
)
    ensures
        rendered_script(GO_SCRIPT_TMPL@, local_file_name, mod_dir, output_path) == script_text(
            go_middle(),
            go_end(),
            filled_name(local_file_name, mod_dir, output_path),
            filled_dir(mod_dir, output_path),
            output_path,
        ),
{
    lemma_go_template();
    lemma_rendered(go_middle(), go_end(), local_file_name, mod_dir, output_path);
}

/// What the Rust script says, whatever is filled in.
pub proof fn law_rust_script(
    local_file_name: Seq<char>,
    mod_dir: Seq<char>,
    output_path: Seq<char>,
)
    ensures
        rendered_script(RUST_SCRIPT_TMPL@, local_file_name, mod_dir, output_path) == script_text(
            rust_middle(),
            rust_end(),
            filled_name(local_file_name, mod_dir, output_path),
            filled_dir(mod_dir, output_path),
            output_path,
        ),
{
    lemma_rust_template();
    lemma_rendered(rust_middle(), rust_end(), local_file_name, mod_dir, output_path);
}

/// A name and a directory that hold no placeholder go into the script as they
/// are.
pub proof fn law_plain_values_are_kept(
    local_file_name: Seq<char>,
    mod_dir: Seq<char>,
    output_path: Seq<char>,
)
    requires
        forall|at: int| !stands_at(local_file_name, "__MOD_DIR__"@, at),
        forall|at: int| !stands_at(local_file_name, "__OUTPUT__"@, at),
        forall|at: int| !stands_at(mod_dir, "__OUTPUT__"@, at),
    ensures
        filled_name(local_file_name, mod_dir, output_path) == local_file_name,
        filled_dir(mod_dir, output_path) == mod_dir,
{
    law_replaced_absent(local_file_name, "__MOD_DIR__"@, mod_dir);
    law_replaced_absent(local_file_name, "__OUTPUT__"@, output_path);
    law_replaced_absent(mod_dir, "__OUTPUT__"@, output_path);
}

/// Filling values in changes nothing but placeholders: a template without any
/// is the script.
pub proof fn law_template_without_placeholders(
    template: Seq<char>,
    local_file_name: Seq<char>,
    mod_dir: Seq<char>,
    output_path: Seq<char>,
)
    requires
        forall|a: Seq<char>, b: Seq<char>| template != #[trigger] (a + "__LOCAL_FILE_NAME__"@ + b),
        forall|a: Seq<char>, b: Seq<char>| template != #[trigger] (a + "__MOD_DIR__"@ + b),
        forall|a: Seq<char>, b: Seq<char>| template != #[trigger] (a + "__OUTPUT__"@ + b),
    ensures
        rendered_script(template, local_file_name, mod_dir, output_path) == template,
{
    law_nothing_to_replace(template, "__LOCAL_FILE_NAME__"@, local_file_name);
    law_nothing_to_replace(template, "__MOD_DIR__"@, mod_dir);
    law_nothing_to_replace(template, "__OUTPUT__"@, output_path);
}

/// Each placeholder gives way to its value. In the archive's name the two other
/// placeholders are filled in too, and in the directory that of the bundle.
pub proof fn law_placeholders(
    local_file_name: Seq<char>,
    mod_dir: Seq<char>,
    output_path: Seq<char>,
)
    ensures
        rendered_script("__OUTPUT__"@, local_file_name, mod_dir, output_path) == output_path,
        rendered_script("__MOD_DIR__"@, local_file_name, mod_dir, output_path) == replaced(
            mod_dir,
            "__OUTPUT__"@,
            output_path,
        ),
        rendered_script("__LOCAL_FILE_NAME__"@, local_file_name, mod_dir, output_path) == replaced(
            replaced(local_file_name, "__MOD_DIR__"@, mod_dir),
            "__OUTPUT__"@,
            output_path,
        ),
{
    reveal_strlit("__LOCAL_FILE_NAME__");
    reveal_strlit("__MOD_DIR__");
    reveal_strlit("__OUTPUT__");
    let name = "__LOCAL_FILE_NAME__"@;
    let dir = "__MOD_DIR__"@;
    let output = "__OUTPUT__"@;
    lemma_whole(name, local_file_name);
    lemma_whole(dir, mod_dir);
    lemma_whole(output, output_path);
    assert forall|at: int| !stands_at(output, dir, at) by {
    }
    assert forall|at: int| !stands_at(output, name, at) by {
    }
    assert forall|at: int| !stands_at(dir, name, at) by {
    }
    law_replaced_absent(output, name, local_file_name);
    law_replaced_absent(output, dir, mod_dir);
    law_replaced_absent(dir, name, local_file_name);
}

/// A placeholder that is filled in with itself is left to be replaced
/// afterwards, in the order of archive, directory and bundle: whatever the
/// template, the script comes out the same.
pub proof fn law_values_can_be_filled_in_later(
    template: Seq<char>,
    local_file_name: Seq<char>,
    mod_dir: Seq<char>,
    output_path: Seq<char>,
)
    ensures
        rendered_script(template, local_file_name, mod_dir, output_path) == replaced(
            rendered_script(template, local_file_name, mod_dir, "__OUTPUT__"@),
            "__OUTPUT__"@,
            output_path,
        ),
        rendered_script(template, local_file_name, mod_dir, "__OUTPUT__"@) == replaced(
            rendered_script(template, local_file_name, "__MOD_DIR__"@, "__OUTPUT__"@),
            "__MOD_DIR__"@,
            mod_dir,
        ),
        rendered_script(template, local_file_name, "__MOD_DIR__"@, "__OUTPUT__"@) == replaced(
            template,
            "__LOCAL_FILE_NAME__"@,
            local_file_name,
        ),
{
    let named = replaced(template, "__LOCAL_FILE_NAME__"@, local_file_name);
    law_replaced_by_itself(named, "__MOD_DIR__"@);
    law_replaced_by_itself(named, "__OUTPUT__"@);
    law_replaced_by_itself(replaced(named, "__MOD_DIR__"@, mod_dir), "__OUTPUT__"@);
}

/// A template can be filled in piece by piece, where the pieces meet at a
/// character that no placeholder holds.
pub proof fn law_template_pieces(
    a: Seq<char>,
    b: Seq<char>,
    border: char,
    local_file_name: Seq<char>,
    mod_dir: Seq<char>,
    output_path: Seq<char>,
)
    requires
        !"__LOCAL_FILE_NAME__"@.contains(border),
        !"__MOD_DIR__"@.contains(border),
        !"__OUTPUT__"@.contains(border),
        (a.len() > 0 && a.last() == border) || (b.len() > 0 && b[0] == border),
    ensures
        rendered_script(a + b, local_file_name, mod_dir, output_path) == rendered_script(
            a,
            local_file_name,
            mod_dir,
            output_path,
        ) + rendered_script(b, local_file_name, mod_dir, output_path),
{
    let name = "__LOCAL_FILE_NAME__"@;
    let dir = "__MOD_DIR__"@;
    let output = "__OUTPUT__"@;
    law_replaced_split(a, b, name, local_file_name, border);
    lemma_border_stays(a, name, local_file_name, border);
    lemma_border_stays(b, name, local_file_name, border);
    let a1 = replaced(a, name, local_file_name);
    let b1 = replaced(b, name, local_file_name);
    law_replaced_split(a1, b1, dir, mod_dir, border);
    lemma_border_stays(a1, dir, mod_dir, border);
    lemma_border_stays(b1, dir, mod_dir, border);
    law_replaced_split(
        replaced(a1, dir, mod_dir),
        replaced(b1, dir, mod_dir),
        output,
        output_path,
        border,
    );
}

/// A character that the pattern does not hold stays at the end of a text where
/// it stands.
proof fn lemma_border_stays(
    text: Seq<char>,
    pattern: Seq<char>,
    value: Seq<char>,
    border: char,
)
    requires
        !pattern.contains(border),
    ensures
        text.len() > 0 && text.last() == border ==> replaced(text, pattern, value).len() > 0
            && replaced(text, pattern, value).last() == border,
        text.len() > 0 && text[0] == border ==> replaced(text, pattern, value).len() > 0
            && replaced(text, pattern, value)[0] == border,
    decreases text.len(),
{
    let width = pattern.len() as int;
    if width > 0 && text.len() >= width {
        if text.take(width) == pattern {
            assert(pattern[0] == text[0]);
            assert(pattern[width - 1] == text[width - 1]);
            lemma_border_stays(text.skip(width), pattern, value, border);
        } else {
            lemma_border_stays(text.skip(1), pattern, value, border);
        }
    }
}

} // verus!
