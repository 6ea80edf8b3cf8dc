//! General guarantees of the generator, proved once for all configurations:
//! the shape and order of the rendered output.

use vstd::prelude::*;

use crate::model::{keys_unique, AliasConfig, Config, Exports, Module, Path, ToolConfig};
use crate::render::{
    spec_alias_stmt, spec_alias_stmts, spec_and, spec_append_stmt, spec_cmd_guard,
    spec_code_stmts, spec_dialect_exports, spec_export_stmt, spec_export_stmts, spec_file_guard,
    spec_guard_close, spec_guard_open, spec_join, spec_module_code, spec_module_stmts,
    spec_modules_stmts, spec_path_stmts, spec_plugin_stmt, spec_prepend_stmt, spec_render,
    spec_stmts, spec_tool_body, spec_tool_stmts, Dialect,
};

verus! {

/// The keys of an export mapping, in declared order.
pub open spec fn spec_export_keys(ps: Seq<(String, String)>) -> Seq<Seq<char>> {
    ps.map_values(|p: (String, String)| p.0@)
}

/// A configuration with no modules, no exports, no PATH entries, no aliases
/// and no tools renders, for either dialect, as the empty document.
pub proof fn lemma_empty_config_renders_empty(d: Dialect, c: Config)
    requires
        c.modules@.len() == 0,
        c.exports.common@.len() == 0,
        c.exports.zsh@.len() == 0,
        c.exports.fish@.len() == 0,
        c.path.prepend@.len() == 0,
        c.path.append@.len() == 0,
        c.aliases@.len() == 0,
        c.tools@.len() == 0,
    ensures
        spec_render(d, c) == Seq::<char>::empty(),
{
    assert(spec_path_stmts(d, c.path) =~= Seq::<Seq<char>>::empty());
    assert(spec_export_stmts(d, c.exports.common@) =~= Seq::<Seq<char>>::empty());
    assert(spec_export_stmts(d, spec_dialect_exports(d, c.exports)) =~= Seq::<Seq<char>>::empty());
    assert(spec_stmts(d, c) =~= Seq::<Seq<char>>::empty());
}

/// In the PATH section, prepend entries all come before any append entry,
/// and each list keeps its declared order: the statement at position `i` is
/// the prepend statement of the `i`-th prepend entry, and the statement at
/// position `prepend.len() + j` is the append statement of the `j`-th
/// append entry.
pub proof fn lemma_path_prepend_before_append(d: Dialect, p: Path)
    ensures
        spec_path_stmts(d, p).len() == p.prepend@.len() + p.append@.len(),
        forall|i: int|
            0 <= i < p.prepend@.len() ==> spec_path_stmts(d, p)[i] == spec_prepend_stmt(
                d,
                p.prepend@[i]@,
            ),
        forall|j: int|
            0 <= j < p.append@.len() ==> spec_path_stmts(d, p)[p.prepend@.len() + j]
                == spec_append_stmt(d, p.append@[j]@),
{
}

/// In one dialect's export section, common entries come first in declared
/// order, then that dialect's specific entries in declared order, one
/// statement per entry; and, for unique and non-overlapping keys, no key
/// appears twice.
pub proof fn lemma_exports_each_key_once(d: Dialect, e: Exports)
    requires
        keys_unique(e.common@),
        keys_unique(spec_dialect_exports(d, e)),
        forall|i: int, j: int|
            0 <= i < e.common@.len() && 0 <= j < spec_dialect_exports(d, e).len() ==> (
            #[trigger] e.common@[i]).0@ != (#[trigger] spec_dialect_exports(d, e)[j]).0@,
    ensures
        spec_export_stmts(d, e.common@) + spec_export_stmts(d, spec_dialect_exports(d, e))
            == spec_export_stmts(d, e.common@ + spec_dialect_exports(d, e)),
        spec_export_stmts(d, e.common@ + spec_dialect_exports(d, e)).len() == e.common@.len()
            + spec_dialect_exports(d, e).len(),
        forall|i: int|
            0 <= i < (e.common@ + spec_dialect_exports(d, e)).len() ==> spec_export_stmts(
                d,
                e.common@ + spec_dialect_exports(d, e),
            )[i] == spec_export_stmt(
                d,
                (e.common@ + spec_dialect_exports(d, e))[i].0@,
                (e.common@ + spec_dialect_exports(d, e))[i].1@,
            ),
        forall|i: int, j: int|
            0 <= i < j < spec_export_keys(e.common@ + spec_dialect_exports(d, e)).len()
                ==> spec_export_keys(e.common@ + spec_dialect_exports(d, e))[i]
                != spec_export_keys(e.common@ + spec_dialect_exports(d, e))[j],
{
    let all = e.common@ + spec_dialect_exports(d, e);
    assert(spec_export_stmts(d, e.common@) + spec_export_stmts(d, spec_dialect_exports(d, e))
        =~= spec_export_stmts(d, all));
    assert forall|i: int, j: int| 0 <= i < j < spec_export_keys(all).len() implies spec_export_keys(
        all,
    )[i] != spec_export_keys(all)[j] by {
        let n = e.common@.len() as int;
        assert(spec_export_keys(all)[i] == all[i].0@);
        assert(spec_export_keys(all)[j] == all[j].0@);
        if j < n {
            assert(all[i] == e.common@[i]);
            assert(all[j] == e.common@[j]);
        } else if i >= n {
            assert(all[i] == spec_dialect_exports(d, e)[i - n]);
            assert(all[j] == spec_dialect_exports(d, e)[j - n]);
        } else {
            assert(all[i] == e.common@[i]);
            assert(all[j] == spec_dialect_exports(d, e)[j - n]);
        }
    }
}

/// Within one module's rendering, plugin-manager statements come first, in
/// declared order, and the module's raw code (when present) comes last.
pub proof fn lemma_plugins_before_code(d: Dialect, m: Module)
    ensures
        spec_module_stmts(d, m).len() == m.plugins@.len() + spec_code_stmts(
            spec_module_code(d, m),
        ).len(),
        forall|i: int|
            0 <= i < m.plugins@.len() ==> spec_module_stmts(d, m)[i] == spec_plugin_stmt(
                d,
                m.plugins@[i]@,
            ),
        spec_module_code(d, m).len() > 0 ==> spec_module_stmts(d, m)[m.plugins@.len() as int]
            == spec_module_code(d, m),
{
}

/// Modules render in declaration order: the statements of the whole modules
/// section split, around any module, into the statements of the modules
/// before it, its own statements, and the statements of the modules after.
pub proof fn lemma_modules_render_in_declaration_order(d: Dialect, ms: Seq<Module>, k: int)
    requires
        0 <= k < ms.len(),
    ensures
        spec_modules_stmts(d, ms) == spec_modules_stmts(d, ms.take(k)) + spec_module_stmts(
            d,
            ms[k],
        ) + spec_modules_stmts(d, ms.skip(k + 1)),
    decreases k,
{
    if k == 0 {
        assert(ms.take(0) =~= Seq::<Module>::empty());
        assert(ms.skip(1) =~= ms.drop_first());
        assert(spec_modules_stmts(d, ms) =~= spec_modules_stmts(d, ms.take(0))
            + spec_module_stmts(d, ms[0]) + spec_modules_stmts(d, ms.skip(1)));
    } else {
        lemma_modules_render_in_declaration_order(d, ms.drop_first(), k - 1);
        assert(ms.drop_first().take(k - 1) =~= ms.take(k).drop_first());
        assert(ms.drop_first().skip(k) =~= ms.skip(k + 1));
        assert(ms.drop_first()[k - 1] == ms[k]);
        assert(ms.take(k)[0] == ms[0]);
        assert(spec_modules_stmts(d, ms.take(k)) == spec_module_stmts(d, ms[0])
            + spec_modules_stmts(d, ms.take(k).drop_first()));
        assert(spec_modules_stmts(d, ms) =~= spec_modules_stmts(d, ms.take(k))
            + spec_module_stmts(d, ms[k]) + spec_modules_stmts(d, ms.skip(k + 1)));
    }
}

/// An alias with only a required tool renders as its definition wrapped in
/// a command-existence guard on exactly that tool name.
pub proof fn lemma_alias_tool_guard(d: Dialect, name: Seq<char>, a: AliasConfig, t: String)
    requires
        a.if_condition is None,
        a.if_tool == Option::Some(t),
    ensures
        spec_alias_stmts(d, name, a) == seq![
            spec_guard_open(d, spec_cmd_guard(d, t@)),
            spec_alias_stmt(d, name, a.cmd@),
            spec_guard_close(d),
        ],
{
    assert(spec_alias_stmts(d, name, a) =~= seq![
        spec_guard_open(d, spec_cmd_guard(d, t@)),
        spec_alias_stmt(d, name, a.cmd@),
        spec_guard_close(d),
    ]);
}

/// A tool with both a command guard and a file guard renders its effects
/// inside a single conditional whose expression requires both checks.
pub proof fn lemma_tool_requires_both_guards(d: Dialect, t: ToolConfig, cmd: String, file: String)
    requires
        t.if_cmd == Option::Some(cmd),
        t.if_file == Option::Some(file),
    ensures
        spec_tool_stmts(d, t) == seq![
            spec_guard_open(d, spec_and(spec_cmd_guard(d, cmd@), spec_file_guard(d, file@))),
        ] + spec_tool_body(d, t) + seq![spec_guard_close(d)],
{
}

/// Statement order carries over to the rendered text: the document of a
/// concatenated statement list is the concatenation of the two documents.
/// Together with the section- and entry-level ordering lemmas above, this
/// places earlier statements earlier in the final output.
pub proof fn lemma_join_distributes_over_concat(a: Seq<Seq<char>>, b: Seq<Seq<char>>)
    ensures
        spec_join(a + b) == spec_join(a) + spec_join(b),
    decreases a.len(),
{
    if a.len() == 0 {
        assert(a + b =~= b);
        assert(spec_join(a + b) =~= spec_join(a) + spec_join(b));
    } else {
        lemma_join_distributes_over_concat(a.drop_first(), b);
        assert((a + b).drop_first() =~= a.drop_first() + b);
        assert((a + b)[0] == a[0]);
        assert(spec_join(a + b) == a[0] + "\n"@ + spec_join(a.drop_first() + b));
        assert(spec_join(a + b) =~= spec_join(a) + spec_join(b));
    }
}

/// Generation is deterministic: two renderings of the same configuration
/// for the same dialect are byte-identical, so repeated invocation given
/// the same configuration is idempotent.
pub proof fn lemma_generation_deterministic(d: Dialect, c: Config, r1: Seq<char>, r2: Seq<char>)
    requires
        r1 == spec_render(d, c),
        r2 == spec_render(d, c),
    ensures
        r1 == r2,
{
}

} // verus!
