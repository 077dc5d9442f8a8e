//! Where the extension's TypeScript declarations are found: the file
//! `lib.deno_wps.d.ts` in the extension's own directory.

use vstd::prelude::*;

verus! {

/// The name of the declaration file, as characters.
pub open spec fn declaration_file_name() -> Seq<char> {
    seq!['l', 'i', 'b', '.', 'd', 'e', 'n', 'o', '_', 'w', 'p', 's', '.', 'd', '.', 't', 's']
}

/// The path that results from adjoining `name` to `base`, with `/` as the
/// separator: an absolute `name` replaces `base`; otherwise a separator is
/// put between them unless `base` is empty or already ends with one.
pub open spec fn joined_path(base: Seq<char>, name: Seq<char>) -> Seq<char> {
    if name.len() > 0 && name[0] == '/' {
        name
    } else if base.len() == 0 || base.last() == '/' {
        base + name
    } else {
        base + seq!['/'] + name
    }
}

/// Adjoins `name` to the directory path `base`.
pub fn join_path(base: &str, name: &str) -> (path: String)
    ensures
        path@ == joined_path(base@, name@),
        !(name@.len() > 0 && name@[0] == '/') && base@.len() > 0 && base@[base@.len() - 1]
            != '/' ==> path@ == base@ + seq!['/'] + name@,
{
    let name_len = name.unicode_len();
    if name_len > 0 && name.get_char(0) == '/' {
        return String::from_str(name);
    }
    let base_len = base.unicode_len();
    let path = String::from_str(base);
    if base_len == 0 || base.get_char(base_len - 1) == '/' {
        path.concat(name)
    } else {
        let with_separator = path.concat("/");
        proof {
            reveal_strlit("/");
        }
        let joined = with_separator.concat(name);
        assert(joined@ =~= base@ + seq!['/'] + name@);
        assert(base@.last() == base@[base@.len() - 1]);
        joined
    }
}

/// The path of the extension's declaration file, given the directory
/// that holds the extension.
pub fn get_declaration(manifest_dir: &str) -> (path: String)
    ensures
        path@ == joined_path(manifest_dir@, declaration_file_name()),
        manifest_dir@.len() > 0 && manifest_dir@[manifest_dir@.len() - 1] != '/' ==> path@
            == manifest_dir@ + seq!['/'] + "lib.deno_wps.d.ts"@,
{
    let file_name = "lib.deno_wps.d.ts";
    proof {
        reveal_strlit("lib.deno_wps.d.ts");
    }
    assert(file_name@ =~= declaration_file_name());
    proof {
        if manifest_dir@.len() > 0 && manifest_dir@[manifest_dir@.len() - 1] != '/' {
            lemma_declaration_path(manifest_dir@);
        }
    }
    join_path(manifest_dir, file_name)
}

/// What adjoining gives in each case: an absolute name replaces the
/// base; a relative name is appended directly to an empty base or to one
/// that ends with `/`; otherwise exactly one `/` is put between the two.
pub proof fn lemma_join_cases(base: Seq<char>, name: Seq<char>)
    ensures
        name.len() > 0 && name[0] == '/' ==> joined_path(base, name) == name,
        !(name.len() > 0 && name[0] == '/') && base.len() == 0 ==> joined_path(base, name)
            == name,
        !(name.len() > 0 && name[0] == '/') && base.len() > 0 && base[base.len() - 1] == '/'
            ==> joined_path(base, name) == base + name,
        !(name.len() > 0 && name[0] == '/') && base.len() > 0 && base[base.len() - 1] != '/'
            ==> {
            let path = joined_path(base, name);
            &&& path.len() == base.len() + name.len() + 1
            &&& path.subrange(0, base.len() as int) == base
            &&& path[base.len() as int] == '/'
            &&& path.subrange(base.len() as int + 1, path.len() as int) == name
        },
{
    if !(name.len() > 0 && name[0] == '/') {
        if base.len() == 0 {
            assert(base + name =~= name);
        } else if base[base.len() - 1] != '/' {
            let path = joined_path(base, name);
            assert(path.subrange(0, base.len() as int) =~= base);
            assert(path.subrange(base.len() as int + 1, path.len() as int) =~= name);
        }
    }
}

/// The declaration file is named `lib.deno_wps.d.ts`.
pub proof fn lemma_declaration_file_name()
    ensures
        declaration_file_name() == "lib.deno_wps.d.ts"@,
        declaration_file_name().len() == 17,
{
    reveal_strlit("lib.deno_wps.d.ts");
    assert(declaration_file_name() =~= "lib.deno_wps.d.ts"@);
}

/// For a directory that does not end with `/`, the declaration path is
/// the directory, one `/`, and `lib.deno_wps.d.ts`.
pub proof fn lemma_declaration_path(manifest_dir: Seq<char>)
    requires
        manifest_dir.len() > 0,
        manifest_dir[manifest_dir.len() - 1] != '/',
    ensures
        joined_path(manifest_dir, declaration_file_name()) == manifest_dir + seq!['/']
            + "lib.deno_wps.d.ts"@,
{
    lemma_declaration_file_name();
    lemma_join_cases(manifest_dir, declaration_file_name());
    let path = joined_path(manifest_dir, declaration_file_name());
    assert(path =~= manifest_dir + seq!['/'] + declaration_file_name());
}

/// Adjoining a name that is not absolute keeps the directory as the start
/// of the path and the name as its end, with at most one separator added.
pub proof fn lemma_join_keeps_both(base: Seq<char>, name: Seq<char>)
    requires
        !(name.len() > 0 && name[0] == '/'),
    ensures
        ({
            let path = joined_path(base, name);
            &&& base.len() + name.len() <= path.len() <= base.len() + name.len() + 1
            &&& path.subrange(0, base.len() as int) == base
            &&& path.subrange(path.len() - name.len(), path.len() as int) == name
        }),
{
    let path = joined_path(base, name);
    assert(path.subrange(0, base.len() as int) =~= base);
    assert(path.subrange(path.len() - name.len(), path.len() as int) =~= name);
}

/// The declaration file lies directly in the given directory: its path
/// starts with the directory and ends with the file's name, and at most one
/// separator stands between the two.
pub proof fn lemma_declaration_in_directory(manifest_dir: Seq<char>)
    ensures
        ({
            let path = joined_path(manifest_dir, declaration_file_name());
            &&& manifest_dir.len() + declaration_file_name().len() <= path.len()
                <= manifest_dir.len() + declaration_file_name().len() + 1
            &&& path.subrange(0, manifest_dir.len() as int) == manifest_dir
            &&& path.subrange(path.len() - declaration_file_name().len(), path.len() as int)
                == declaration_file_name()
        }),
{
    assert(declaration_file_name()[0] == 'l');
    lemma_join_keeps_both(manifest_dir, declaration_file_name());
}

} // verus!
