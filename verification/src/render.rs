//! The generator: a pure mapping from a configuration and a target dialect
//! to one rendered script. The exact text produced is pinned down by the
//! `spec_` functions below; every public entry point ensures its result is
//! byte-for-byte the sequence those functions describe.
//!
//! Rendering order is fixed: PATH amendments, exported variables (common
//! entries then dialect-specific ones), modules in declaration order (plugin
//! statements before the module's raw code), aliases, then guarded tools
//! (inside each guard: PATH entries, exports, raw code).

use vstd::prelude::*;
use vstd::string::*;

use crate::model::{AliasConfig, Config, Exports, Module, Path, ToolConfig};

verus! {

/// The two shell script flavors the generator can target.
#[derive(Clone, Copy, Debug, PartialEq, Eq, Structural)]
pub enum Dialect {
    Zsh,
    Fish,
}

/// Raised when generation is requested for a dialect name the generator
/// does not recognize.
#[derive(Clone, Copy, Debug, PartialEq, Eq, Structural)]
pub enum GenerationError {
    UnsupportedDialect,
}

// ---------------------------------------------------------------------------
// The specification of the emitted text, one statement at a time.
// ---------------------------------------------------------------------------

/// The statement placing one entry ahead of the existing PATH value.
pub open spec fn spec_prepend_stmt(d: Dialect, e: Seq<char>) -> Seq<char> {
    match d {
        Dialect::Zsh => "export PATH=\""@ + e + ":$PATH\""@,
        Dialect::Fish => "set -gx PATH \""@ + e + "\" $PATH"@,
    }
}

/// The statement placing one entry after the existing PATH value.
pub open spec fn spec_append_stmt(d: Dialect, e: Seq<char>) -> Seq<char> {
    match d {
        Dialect::Zsh => "export PATH=\"$PATH:"@ + e + "\""@,
        Dialect::Fish => "set -gx PATH $PATH \""@ + e + "\""@,
    }
}

/// The statement exporting one variable.
pub open spec fn spec_export_stmt(d: Dialect, k: Seq<char>, v: Seq<char>) -> Seq<char> {
    match d {
        Dialect::Zsh => "export "@ + k + "=\""@ + v + "\""@,
        Dialect::Fish => "set -gx "@ + k + " \""@ + v + "\""@,
    }
}

/// The plugin-manager invocation loading one plugin.
pub open spec fn spec_plugin_stmt(d: Dialect, p: Seq<char>) -> Seq<char> {
    match d {
        Dialect::Zsh => "znap source "@ + p,
        Dialect::Fish => "fisher install "@ + p,
    }
}

/// The guard expression testing that a command exists on the search path.
pub open spec fn spec_cmd_guard(d: Dialect, t: Seq<char>) -> Seq<char> {
    match d {
        Dialect::Zsh => "command -v "@ + t + " >/dev/null 2>&1"@,
        Dialect::Fish => "type -q "@ + t,
    }
}

/// The guard expression testing that a file exists.
pub open spec fn spec_file_guard(d: Dialect, f: Seq<char>) -> Seq<char> {
    match d {
        Dialect::Zsh => "[ -f \""@ + f + "\" ]"@,
        Dialect::Fish => "test -f \""@ + f + "\""@,
    }
}

/// Two guard expressions combined so that both must hold.
pub open spec fn spec_and(a: Seq<char>, b: Seq<char>) -> Seq<char> {
    a + " && "@ + b
}

/// The line opening a conditional block around guarded statements.
pub open spec fn spec_guard_open(d: Dialect, g: Seq<char>) -> Seq<char> {
    match d {
        Dialect::Zsh => "if "@ + g + "; then"@,
        Dialect::Fish => "if "@ + g,
    }
}

/// The line closing a conditional block.
pub open spec fn spec_guard_close(d: Dialect) -> Seq<char> {
    match d {
        Dialect::Zsh => "fi"@,
        Dialect::Fish => "end"@,
    }
}

/// The statement defining one alias.
pub open spec fn spec_alias_stmt(d: Dialect, name: Seq<char>, cmd: Seq<char>) -> Seq<char> {
    match d {
        Dialect::Zsh => "alias "@ + name + "=\""@ + cmd + "\""@,
        Dialect::Fish => "alias "@ + name + " \""@ + cmd + "\""@,
    }
}

// ---------------------------------------------------------------------------
// The specification of each section as a sequence of statements.
// ---------------------------------------------------------------------------

/// The PATH section: one statement per prepend entry, in declared order,
/// followed by one statement per append entry, in declared order.
pub open spec fn spec_path_stmts(d: Dialect, p: Path) -> Seq<Seq<char>> {
    p.prepend@.map_values(|e: String| spec_prepend_stmt(d, e@)) + p.append@.map_values(
        |e: String| spec_append_stmt(d, e@),
    )
}

/// One export statement per entry of an export mapping, in declared order.
pub open spec fn spec_export_stmts(d: Dialect, ps: Seq<(String, String)>) -> Seq<Seq<char>> {
    ps.map_values(|p: (String, String)| spec_export_stmt(d, p.0@, p.1@))
}

/// The export entries specific to one dialect.
pub open spec fn spec_dialect_exports(d: Dialect, e: Exports) -> Seq<(String, String)> {
    match d {
        Dialect::Zsh => e.zsh@,
        Dialect::Fish => e.fish@,
    }
}

/// A raw code snippet as a (possibly empty) statement list: nothing when the
/// snippet is empty, otherwise the snippet verbatim.
pub open spec fn spec_code_stmts(code: Seq<char>) -> Seq<Seq<char>> {
    if code.len() == 0 {
        Seq::<Seq<char>>::empty()
    } else {
        seq![code]
    }
}

/// The raw code a module carries for one dialect.
pub open spec fn spec_module_code(d: Dialect, m: Module) -> Seq<char> {
    match d {
        Dialect::Zsh => m.zsh_code@,
        Dialect::Fish => m.fish_code@,
    }
}

/// One module's statements: its plugin invocations in declared order, then
/// its raw code verbatim when present.
pub open spec fn spec_module_stmts(d: Dialect, m: Module) -> Seq<Seq<char>> {
    m.plugins@.map_values(|p: String| spec_plugin_stmt(d, p@)) + spec_code_stmts(
        spec_module_code(d, m),
    )
}

/// All modules' statements, in declaration order.
pub open spec fn spec_modules_stmts(d: Dialect, ms: Seq<Module>) -> Seq<Seq<char>>
    decreases ms.len(),
{
    if ms.len() == 0 {
        Seq::<Seq<char>>::empty()
    } else {
        spec_module_stmts(d, ms[0]) + spec_modules_stmts(d, ms.drop_first())
    }
}

/// Statements wrapped in a conditional block when a guard is present, and
/// emitted bare when none is.
pub open spec fn spec_guarded(d: Dialect, g: Option<Seq<char>>, body: Seq<Seq<char>>) -> Seq<
    Seq<char>,
> {
    match g {
        Option::None => body,
        Option::Some(gs) => seq![spec_guard_open(d, gs)] + body + seq![spec_guard_close(d)],
    }
}

/// An alias's guard: its raw condition expression, a command-existence check
/// on its required tool, both combined with AND, or nothing.
pub open spec fn spec_alias_guard(d: Dialect, a: AliasConfig) -> Option<Seq<char>> {
    match (a.if_condition, a.if_tool) {
        (Option::None, Option::None) => Option::None,
        (Option::Some(c), Option::None) => Option::Some(c@),
        (Option::None, Option::Some(t)) => Option::Some(spec_cmd_guard(d, t@)),
        (Option::Some(c), Option::Some(t)) => Option::Some(
            spec_and(c@, spec_cmd_guard(d, t@)),
        ),
    }
}

/// One alias's statements: its definition, wrapped in its guard if any.
pub open spec fn spec_alias_stmts(d: Dialect, name: Seq<char>, a: AliasConfig) -> Seq<Seq<char>> {
    spec_guarded(d, spec_alias_guard(d, a), seq![spec_alias_stmt(d, name, a.cmd@)])
}

/// All aliases' statements, in the order the configuration lists them.
pub open spec fn spec_aliases_stmts(d: Dialect, al: Seq<(String, AliasConfig)>) -> Seq<Seq<char>>
    decreases al.len(),
{
    if al.len() == 0 {
        Seq::<Seq<char>>::empty()
    } else {
        spec_alias_stmts(d, al[0].0@, al[0].1) + spec_aliases_stmts(d, al.drop_first())
    }
}

/// A tool's guard: a command-existence check, a file-existence check, both
/// combined with AND, or nothing.
pub open spec fn spec_tool_guard(d: Dialect, t: ToolConfig) -> Option<Seq<char>> {
    match (t.if_cmd, t.if_file) {
        (Option::None, Option::None) => Option::None,
        (Option::Some(c), Option::None) => Option::Some(spec_cmd_guard(d, c@)),
        (Option::None, Option::Some(f)) => Option::Some(spec_file_guard(d, f@)),
        (Option::Some(c), Option::Some(f)) => Option::Some(
            spec_and(spec_cmd_guard(d, c@), spec_file_guard(d, f@)),
        ),
    }
}

/// The raw code a tool carries for one dialect.
pub open spec fn spec_tool_code(d: Dialect, t: ToolConfig) -> Seq<char> {
    match d {
        Dialect::Zsh => t.zsh_code@,
        Dialect::Fish => t.fish_code@,
    }
}

/// A tool's effects, in order: its PATH entries, its exports, its raw code.
pub open spec fn spec_tool_body(d: Dialect, t: ToolConfig) -> Seq<Seq<char>> {
    spec_path_stmts(d, t.path) + spec_export_stmts(d, t.exports@) + spec_code_stmts(
        spec_tool_code(d, t),
    )
}

/// One tool's statements: its effects inside its guard, if any.
pub open spec fn spec_tool_stmts(d: Dialect, t: ToolConfig) -> Seq<Seq<char>> {
    spec_guarded(d, spec_tool_guard(d, t), spec_tool_body(d, t))
}

/// All tools' statements, in the order the configuration lists them.
pub open spec fn spec_tools_stmts(d: Dialect, ts: Seq<(String, ToolConfig)>) -> Seq<Seq<char>>
    decreases ts.len(),
{
    if ts.len() == 0 {
        Seq::<Seq<char>>::empty()
    } else {
        spec_tool_stmts(d, ts[0].1) + spec_tools_stmts(d, ts.drop_first())
    }
}

/// The whole document as a statement list, sections in their fixed order.
pub open spec fn spec_stmts(d: Dialect, c: Config) -> Seq<Seq<char>> {
    spec_path_stmts(d, c.path) + spec_export_stmts(d, c.exports.common@) + spec_export_stmts(
        d,
        spec_dialect_exports(d, c.exports),
    ) + spec_modules_stmts(d, c.modules@) + spec_aliases_stmts(d, c.aliases@) + spec_tools_stmts(
        d,
        c.tools@,
    )
}

/// Statements joined into one document, a newline after each statement. An
/// empty statement list yields the empty document.
pub open spec fn spec_join(ls: Seq<Seq<char>>) -> Seq<char>
    decreases ls.len(),
{
    if ls.len() == 0 {
        Seq::<char>::empty()
    } else {
        ls[0] + "\n"@ + spec_join(ls.drop_first())
    }
}

/// The full rendering of a configuration for one dialect.
pub open spec fn spec_render(d: Dialect, c: Config) -> Seq<char> {
    spec_join(spec_stmts(d, c))
}

/// The view of a statement list built at run time.
pub open spec fn lines_view(v: Seq<String>) -> Seq<Seq<char>> {
    v.map_values(|s: String| s@)
}

/// The view of an optional guard expression built at run time.
pub open spec fn opt_view(g: Option<String>) -> Option<Seq<char>> {
    match g {
        Option::None => Option::None,
        Option::Some(s) => Option::Some(s@),
    }
}

// ---------------------------------------------------------------------------
// Statement builders.
// ---------------------------------------------------------------------------

fn prepend_stmt(d: Dialect, e: &String) -> (r: String)
    ensures
        r@ == spec_prepend_stmt(d, e@),
{
    match d {
        Dialect::Zsh => {
            let mut s = String::from_str("export PATH=\"");
            s.append(e.as_str());
            s.append(":$PATH\"");
            s
        },
        Dialect::Fish => {
            let mut s = String::from_str("set -gx PATH \"");
            s.append(e.as_str());
            s.append("\" $PATH");
            s
        },
    }
}

fn append_stmt(d: Dialect, e: &String) -> (r: String)
    ensures
        r@ == spec_append_stmt(d, e@),
{
    match d {
        Dialect::Zsh => {
            let mut s = String::from_str("export PATH=\"$PATH:");
            s.append(e.as_str());
            s.append("\"");
            s
        },
        Dialect::Fish => {
            let mut s = String::from_str("set -gx PATH $PATH \"");
            s.append(e.as_str());
            s.append("\"");
            s
        },
    }
}

fn export_stmt(d: Dialect, k: &String, v: &String) -> (r: String)
    ensures
        r@ == spec_export_stmt(d, k@, v@),
{
    match d {
        Dialect::Zsh => {
            let mut s = String::from_str("export ");
            s.append(k.as_str());
            s.append("=\"");
            s.append(v.as_str());
            s.append("\"");
            s
        },
        Dialect::Fish => {
            let mut s = String::from_str("set -gx ");
            s.append(k.as_str());
            s.append(" \"");
            s.append(v.as_str());
            s.append("\"");
            s
        },
    }
}

fn plugin_stmt(d: Dialect, p: &String) -> (r: String)
    ensures
        r@ == spec_plugin_stmt(d, p@),
{
    match d {
        Dialect::Zsh => {
            let mut s = String::from_str("znap source ");
            s.append(p.as_str());
            s
        },
        Dialect::Fish => {
            let mut s = String::from_str("fisher install ");
            s.append(p.as_str());
            s
        },
    }
}

fn cmd_guard(d: Dialect, t: &String) -> (r: String)
    ensures
        r@ == spec_cmd_guard(d, t@),
{
    match d {
        Dialect::Zsh => {
            let mut s = String::from_str("command -v ");
            s.append(t.as_str());
            s.append(" >/dev/null 2>&1");
            s
        },
        Dialect::Fish => {
            let mut s = String::from_str("type -q ");
            s.append(t.as_str());
            s
        },
    }
}

fn file_guard(d: Dialect, f: &String) -> (r: String)
    ensures
        r@ == spec_file_guard(d, f@),
{
    match d {
        Dialect::Zsh => {
            let mut s = String::from_str("[ -f \"");
            s.append(f.as_str());
            s.append("\" ]");
            s
        },
        Dialect::Fish => {
            let mut s = String::from_str("test -f \"");
            s.append(f.as_str());
            s.append("\"");
            s
        },
    }
}

fn and_expr(a: String, b: &String) -> (r: String)
    ensures
        r@ == spec_and(a@, b@),
{
    let mut s = a;
    s.append(" && ");
    s.append(b.as_str());
    s
}

fn guard_open(d: Dialect, g: String) -> (r: String)
    ensures
        r@ == spec_guard_open(d, g@),
{
    match d {
        Dialect::Zsh => {
            let mut s = String::from_str("if ");
            s.append(g.as_str());
            s.append("; then");
            s
        },
        Dialect::Fish => {
            let mut s = String::from_str("if ");
            s.append(g.as_str());
            s
        },
    }
}

fn guard_close(d: Dialect) -> (r: String)
    ensures
        r@ == spec_guard_close(d),
{
    match d {
        Dialect::Zsh => String::from_str("fi"),
        Dialect::Fish => String::from_str("end"),
    }
}

fn alias_stmt(d: Dialect, name: &String, cmd: &String) -> (r: String)
    ensures
        r@ == spec_alias_stmt(d, name@, cmd@),
{
    match d {
        Dialect::Zsh => {
            let mut s = String::from_str("alias ");
            s.append(name.as_str());
            s.append("=\"");
            s.append(cmd.as_str());
            s.append("\"");
            s
        },
        Dialect::Fish => {
            let mut s = String::from_str("alias ");
            s.append(name.as_str());
            s.append(" \"");
            s.append(cmd.as_str());
            s.append("\"");
            s
        },
    }
}

fn alias_guard(d: Dialect, a: &AliasConfig) -> (g: Option<String>)
    ensures
        opt_view(g) == spec_alias_guard(d, *a),
{
    match (&a.if_condition, &a.if_tool) {
        (Option::None, Option::None) => Option::None,
        (Option::Some(c), Option::None) => Option::Some(c.clone()),
        (Option::None, Option::Some(t)) => Option::Some(cmd_guard(d, t)),
        (Option::Some(c), Option::Some(t)) => {
            let cg = cmd_guard(d, t);
            Option::Some(and_expr(c.clone(), &cg))
        },
    }
}

fn tool_guard(d: Dialect, t: &ToolConfig) -> (g: Option<String>)
    ensures
        opt_view(g) == spec_tool_guard(d, *t),
{
    match (&t.if_cmd, &t.if_file) {
        (Option::None, Option::None) => Option::None,
        (Option::Some(c), Option::None) => Option::Some(cmd_guard(d, c)),
        (Option::None, Option::Some(f)) => Option::Some(file_guard(d, f)),
        (Option::Some(c), Option::Some(f)) => {
            let fg = file_guard(d, f);
            Option::Some(and_expr(cmd_guard(d, c), &fg))
        },
    }
}

// ---------------------------------------------------------------------------
// Section emitters: each appends its section's statements to the document.
// ---------------------------------------------------------------------------

fn emit_path(out: &mut Vec<String>, d: Dialect, p: &Path)
    ensures
        lines_view(final(out)@) == lines_view(old(out)@) + spec_path_stmts(d, *p),
{
    let ghost n0: int = old(out)@.len() as int;
    let mut i: usize = 0;
    while i < p.prepend.len()
        invariant
            i <= p.prepend.len(),
            out@.len() == n0 + i,
            n0 == old(out)@.len(),
            forall|j: int| 0 <= j < n0 ==> out@[j] == old(out)@[j],
            forall|j: int|
                n0 <= j < out@.len() ==> (#[trigger] out@[j])@ == spec_prepend_stmt(
                    d,
                    p.prepend@[j - n0]@,
                ),
        decreases p.prepend.len() - i,
    {
        let s = prepend_stmt(d, &p.prepend[i]);
        out.push(s);
        i += 1;
    }
    let ghost n1: int = n0 + p.prepend@.len();
    let mut k: usize = 0;
    while k < p.append.len()
        invariant
            k <= p.append.len(),
            out@.len() == n1 + k,
            n0 == old(out)@.len(),
            n1 == n0 + p.prepend@.len(),
            forall|j: int| 0 <= j < n0 ==> out@[j] == old(out)@[j],
            forall|j: int|
                n0 <= j < n1 ==> (#[trigger] out@[j])@ == spec_prepend_stmt(
                    d,
                    p.prepend@[j - n0]@,
                ),
            forall|j: int|
                n1 <= j < out@.len() ==> (#[trigger] out@[j])@ == spec_append_stmt(
                    d,
                    p.append@[j - n1]@,
                ),
        decreases p.append.len() - k,
    {
        let s = append_stmt(d, &p.append[k]);
        out.push(s);
        k += 1;
    }
    proof {
        assert(lines_view(out@) =~= lines_view(old(out)@) + spec_path_stmts(d, *p));
    }
}

fn emit_export_pairs(out: &mut Vec<String>, d: Dialect, ps: &Vec<(String, String)>)
    ensures
        lines_view(final(out)@) == lines_view(old(out)@) + spec_export_stmts(d, ps@),
{
    let ghost n0: int = old(out)@.len() as int;
    let mut i: usize = 0;
    while i < ps.len()
        invariant
            i <= ps.len(),
            out@.len() == n0 + i,
            n0 == old(out)@.len(),
            forall|j: int| 0 <= j < n0 ==> out@[j] == old(out)@[j],
            forall|j: int|
                n0 <= j < out@.len() ==> (#[trigger] out@[j])@ == spec_export_stmt(
                    d,
                    ps@[j - n0].0@,
                    ps@[j - n0].1@,
                ),
        decreases ps.len() - i,
    {
        let s = export_stmt(d, &ps[i].0, &ps[i].1);
        out.push(s);
        i += 1;
    }
    proof {
        assert(lines_view(out@) =~= lines_view(old(out)@) + spec_export_stmts(d, ps@));
    }
}

/// Appends a raw code snippet: nothing when it is empty, the snippet
/// verbatim otherwise.
fn emit_code(out: &mut Vec<String>, code: &String)
    ensures
        lines_view(final(out)@) == lines_view(old(out)@) + spec_code_stmts(code@),
{
    if !code.as_str().is_empty() {
        out.push(code.clone());
    }
    proof {
        assert(lines_view(out@) =~= lines_view(old(out)@) + spec_code_stmts(code@));
    }
}

fn emit_module(out: &mut Vec<String>, d: Dialect, m: &Module)
    ensures
        lines_view(final(out)@) == lines_view(old(out)@) + spec_module_stmts(d, *m),
{
    let ghost n0: int = old(out)@.len() as int;
    let mut i: usize = 0;
    while i < m.plugins.len()
        invariant
            i <= m.plugins.len(),
            out@.len() == n0 + i,
            n0 == old(out)@.len(),
            forall|j: int| 0 <= j < n0 ==> out@[j] == old(out)@[j],
            forall|j: int|
                n0 <= j < out@.len() ==> (#[trigger] out@[j])@ == spec_plugin_stmt(
                    d,
                    m.plugins@[j - n0]@,
                ),
        decreases m.plugins.len() - i,
    {
        let s = plugin_stmt(d, &m.plugins[i]);
        out.push(s);
        i += 1;
    }
    let code: &String = match d {
        Dialect::Zsh => &m.zsh_code,
        Dialect::Fish => &m.fish_code,
    };
    emit_code(out, code);
    proof {
        assert(lines_view(out@) =~= lines_view(old(out)@) + spec_module_stmts(d, *m));
    }
}

proof fn lemma_modules_stmts_push(d: Dialect, ms: Seq<Module>, m: Module)
    ensures
        spec_modules_stmts(d, ms.push(m)) == spec_modules_stmts(d, ms) + spec_module_stmts(d, m),
    decreases ms.len(),
{
    if ms.len() == 0 {
        assert(ms =~= Seq::<Module>::empty());
        assert(ms.push(m).drop_first() =~= Seq::<Module>::empty());
        assert(spec_modules_stmts(d, ms.push(m)) =~= spec_modules_stmts(d, ms)
            + spec_module_stmts(d, m));
    } else {
        lemma_modules_stmts_push(d, ms.drop_first(), m);
        assert(ms.push(m).drop_first() =~= ms.drop_first().push(m));
        assert(ms.push(m)[0] == ms[0]);
        assert(spec_modules_stmts(d, ms.push(m)) == spec_module_stmts(d, ms[0])
            + spec_modules_stmts(d, ms.drop_first().push(m)));
        assert(spec_modules_stmts(d, ms.push(m)) =~= spec_modules_stmts(d, ms)
            + spec_module_stmts(d, m));
    }
}

fn emit_modules(out: &mut Vec<String>, d: Dialect, ms: &Vec<Module>)
    ensures
        lines_view(final(out)@) == lines_view(old(out)@) + spec_modules_stmts(d, ms@),
{
    let mut i: usize = 0;
    while i < ms.len()
        invariant
            i <= ms.len(),
            lines_view(out@) == lines_view(old(out)@) + spec_modules_stmts(
                d,
                ms@.take(i as int),
            ),
        decreases ms.len() - i,
    {
        emit_module(out, d, &ms[i]);
        proof {
            lemma_modules_stmts_push(d, ms@.take(i as int), ms@[i as int]);
            assert(ms@.take(i as int).push(ms@[i as int]) =~= ms@.take(i as int + 1));
        }
        i += 1;
    }
    proof {
        assert(ms@.take(ms@.len() as int) =~= ms@);
    }
}

fn emit_alias(out: &mut Vec<String>, d: Dialect, name: &String, a: &AliasConfig)
    ensures
        lines_view(final(out)@) == lines_view(old(out)@) + spec_alias_stmts(d, name@, *a),
{
    let g = alias_guard(d, a);
    let line = alias_stmt(d, name, &a.cmd);
    match g {
        Option::None => {
            out.push(line);
        },
        Option::Some(gs) => {
            let open = guard_open(d, gs);
            out.push(open);
            out.push(line);
            let close = guard_close(d);
            out.push(close);
        },
    }
    proof {
        assert(lines_view(out@) =~= lines_view(old(out)@) + spec_alias_stmts(d, name@, *a));
    }
}

proof fn lemma_aliases_stmts_push(d: Dialect, al: Seq<(String, AliasConfig)>, x: (String, AliasConfig))
    ensures
        spec_aliases_stmts(d, al.push(x)) == spec_aliases_stmts(d, al) + spec_alias_stmts(
            d,
            x.0@,
            x.1,
        ),
    decreases al.len(),
{
    if al.len() == 0 {
        assert(al =~= Seq::<(String, AliasConfig)>::empty());
        assert(al.push(x).drop_first() =~= Seq::<(String, AliasConfig)>::empty());
        assert(spec_aliases_stmts(d, al.push(x)) =~= spec_aliases_stmts(d, al)
            + spec_alias_stmts(d, x.0@, x.1));
    } else {
        lemma_aliases_stmts_push(d, al.drop_first(), x);
        assert(al.push(x).drop_first() =~= al.drop_first().push(x));
        assert(al.push(x)[0] == al[0]);
        assert(spec_aliases_stmts(d, al.push(x)) == spec_alias_stmts(d, al[0].0@, al[0].1)
            + spec_aliases_stmts(d, al.drop_first().push(x)));
        assert(spec_aliases_stmts(d, al.push(x)) =~= spec_aliases_stmts(d, al)
            + spec_alias_stmts(d, x.0@, x.1));
    }
}

fn emit_aliases(out: &mut Vec<String>, d: Dialect, al: &Vec<(String, AliasConfig)>)
    ensures
        lines_view(final(out)@) == lines_view(old(out)@) + spec_aliases_stmts(d, al@),
{
    let mut i: usize = 0;
    while i < al.len()
        invariant
            i <= al.len(),
            lines_view(out@) == lines_view(old(out)@) + spec_aliases_stmts(
                d,
                al@.take(i as int),
            ),
        decreases al.len() - i,
    {
        emit_alias(out, d, &al[i].0, &al[i].1);
        proof {
            lemma_aliases_stmts_push(d, al@.take(i as int), al@[i as int]);
            assert(al@.take(i as int).push(al@[i as int]) =~= al@.take(i as int + 1));
        }
        i += 1;
    }
    proof {
        assert(al@.take(al@.len() as int) =~= al@);
    }
}

fn emit_tool_body(out: &mut Vec<String>, d: Dialect, t: &ToolConfig)
    ensures
        lines_view(final(out)@) == lines_view(old(out)@) + spec_tool_body(d, *t),
{
    emit_path(out, d, &t.path);
    emit_export_pairs(out, d, &t.exports);
    let code: &String = match d {
        Dialect::Zsh => &t.zsh_code,
        Dialect::Fish => &t.fish_code,
    };
    emit_code(out, code);
    proof {
        assert(lines_view(out@) =~= lines_view(old(out)@) + spec_tool_body(d, *t));
    }
}

fn emit_tool(out: &mut Vec<String>, d: Dialect, t: &ToolConfig)
    ensures
        lines_view(final(out)@) == lines_view(old(out)@) + spec_tool_stmts(d, *t),
{
    let g = tool_guard(d, t);
    match g {
        Option::None => {
            emit_tool_body(out, d, t);
            proof {
                assert(lines_view(out@) =~= lines_view(old(out)@) + spec_tool_stmts(d, *t));
            }
        },
        Option::Some(gs) => {
            let ghost gseq = gs@;
            let open = guard_open(d, gs);
            out.push(open);
            proof {
                assert(lines_view(out@) =~= lines_view(old(out)@) + seq![
                    spec_guard_open(d, gseq),
                ]);
            }
            emit_tool_body(out, d, t);
            proof {
                assert(lines_view(out@) =~= lines_view(old(out)@) + seq![
                    spec_guard_open(d, gseq),
                ] + spec_tool_body(d, *t));
            }
            let close = guard_close(d);
            out.push(close);
            proof {
                assert(lines_view(out@) =~= lines_view(old(out)@) + seq![
                    spec_guard_open(d, gseq),
                ] + spec_tool_body(d, *t) + seq![spec_guard_close(d)]);
                assert(lines_view(out@) =~= lines_view(old(out)@) + spec_tool_stmts(d, *t));
            }
        },
    }
}

proof fn lemma_tools_stmts_push(d: Dialect, ts: Seq<(String, ToolConfig)>, x: (String, ToolConfig))
    ensures
        spec_tools_stmts(d, ts.push(x)) == spec_tools_stmts(d, ts) + spec_tool_stmts(d, x.1),
    decreases ts.len(),
{
    if ts.len() == 0 {
        assert(ts =~= Seq::<(String, ToolConfig)>::empty());
        assert(ts.push(x).drop_first() =~= Seq::<(String, ToolConfig)>::empty());
        assert(spec_tools_stmts(d, ts.push(x)) =~= spec_tools_stmts(d, ts)
            + spec_tool_stmts(d, x.1));
    } else {
        lemma_tools_stmts_push(d, ts.drop_first(), x);
        assert(ts.push(x).drop_first() =~= ts.drop_first().push(x));
        assert(ts.push(x)[0] == ts[0]);
        assert(spec_tools_stmts(d, ts.push(x)) == spec_tool_stmts(d, ts[0].1)
            + spec_tools_stmts(d, ts.drop_first().push(x)));
        assert(spec_tools_stmts(d, ts.push(x)) =~= spec_tools_stmts(d, ts)
            + spec_tool_stmts(d, x.1));
    }
}

fn emit_tools(out: &mut Vec<String>, d: Dialect, ts: &Vec<(String, ToolConfig)>)
    ensures
        lines_view(final(out)@) == lines_view(old(out)@) + spec_tools_stmts(d, ts@),
{
    let mut i: usize = 0;
    while i < ts.len()
        invariant
            i <= ts.len(),
            lines_view(out@) == lines_view(old(out)@) + spec_tools_stmts(d, ts@.take(i as int)),
        decreases ts.len() - i,
    {
        emit_tool(out, d, &ts[i].1);
        proof {
            lemma_tools_stmts_push(d, ts@.take(i as int), ts@[i as int]);
            assert(ts@.take(i as int).push(ts@[i as int]) =~= ts@.take(i as int + 1));
        }
        i += 1;
    }
    proof {
        assert(ts@.take(ts@.len() as int) =~= ts@);
    }
}

// ---------------------------------------------------------------------------
// Assembling the document.
// ---------------------------------------------------------------------------

/// Builds the whole document as a statement list, sections in their fixed
/// order: PATH, exports (common then dialect-specific), modules, aliases,
/// tools.
fn build_stmts(c: &Config, d: Dialect) -> (out: Vec<String>)
    ensures
        lines_view(out@) == spec_stmts(d, *c),
{
    let mut out: Vec<String> = Vec::new();
    emit_path(&mut out, d, &c.path);
    emit_export_pairs(&mut out, d, &c.exports.common);
    let specific: &Vec<(String, String)> = match d {
        Dialect::Zsh => &c.exports.zsh,
        Dialect::Fish => &c.exports.fish,
    };
    emit_export_pairs(&mut out, d, specific);
    emit_modules(&mut out, d, &c.modules);
    emit_aliases(&mut out, d, &c.aliases);
    emit_tools(&mut out, d, &c.tools);
    proof {
        assert(lines_view(out@) =~= spec_stmts(d, *c));
    }
    out
}

proof fn lemma_join_push(ls: Seq<Seq<char>>, l: Seq<char>)
    ensures
        spec_join(ls.push(l)) == spec_join(ls) + l + "\n"@,
    decreases ls.len(),
{
    if ls.len() == 0 {
        assert(ls =~= Seq::<Seq<char>>::empty());
        assert(ls.push(l).drop_first() =~= Seq::<Seq<char>>::empty());
        assert(spec_join(ls.push(l)) =~= spec_join(ls) + l + "\n"@);
    } else {
        lemma_join_push(ls.drop_first(), l);
        assert(ls.push(l).drop_first() =~= ls.drop_first().push(l));
        assert(ls.push(l)[0] == ls[0]);
        assert(spec_join(ls.push(l)) == ls[0] + "\n"@ + spec_join(ls.drop_first().push(l)));
        assert(spec_join(ls.push(l)) =~= spec_join(ls) + l + "\n"@);
    }
}

/// Joins the statements into one text, a newline after each.
fn join_lines(lines: &Vec<String>) -> (r: String)
    ensures
        r@ == spec_join(lines_view(lines@)),
{
    let mut r = String::new();
    let mut i: usize = 0;
    proof {
        assert(lines_view(lines@.take(0)) =~= Seq::<Seq<char>>::empty());
    }
    while i < lines.len()
        invariant
            i <= lines.len(),
            r@ == spec_join(lines_view(lines@.take(i as int))),
        decreases lines.len() - i,
    {
        proof {
            lemma_join_push(lines_view(lines@.take(i as int)), lines@[i as int]@);
            assert(lines_view(lines@.take(i as int)).push(lines@[i as int]@) =~= lines_view(
                lines@.take(i as int + 1),
            ));
        }
        r.append(lines[i].as_str());
        r.append("\n");
        i += 1;
    }
    proof {
        assert(lines@.take(lines@.len() as int) =~= lines@);
    }
    r
}

/// Renders a configuration as a zsh initialization script.
pub fn generate_zsh(c: &Config) -> (r: String)
    ensures
        r@ == spec_render(Dialect::Zsh, *c),
{
    let lines = build_stmts(c, Dialect::Zsh);
    join_lines(&lines)
}

/// Renders a configuration as a fish initialization script.
pub fn generate_fish(c: &Config) -> (r: String)
    ensures
        r@ == spec_render(Dialect::Fish, *c),
{
    let lines = build_stmts(c, Dialect::Fish);
    join_lines(&lines)
}

/// Character-for-character equality of two string slices.
fn str_eq(a: &str, b: &str) -> (r: bool)
    ensures
        r == (a@ == b@),
{
    let alen = a.unicode_len();
    let blen = b.unicode_len();
    if alen != blen {
        return false;
    }
    let mut i: usize = 0;
    while i < alen
        invariant
            i <= alen,
            alen == a@.len(),
            alen == b@.len(),
            forall|j: int| 0 <= j < i ==> a@[j] == b@[j],
        decreases alen - i,
    {
        if a.get_char(i) != b.get_char(i) {
            return false;
        }
        i += 1;
    }
    proof {
        assert(a@ =~= b@);
    }
    true
}

/// Renders a configuration for a dialect selected by name: `"zsh"` and
/// `"fish"` are the recognized dialects, any other name is refused.
pub fn generate(c: &Config, dialect: &str) -> (r: Result<String, GenerationError>)
    ensures
        dialect@ == "zsh"@ ==> (match r {
            Result::Ok(s) => s@ == spec_render(Dialect::Zsh, *c),
            Result::Err(_) => false,
        }),
        dialect@ == "fish"@ ==> (match r {
            Result::Ok(s) => s@ == spec_render(Dialect::Fish, *c),
            Result::Err(_) => false,
        }),
        r is Err <==> (dialect@ != "zsh"@ && dialect@ != "fish"@),
        r is Err ==> r == Result::<String, GenerationError>::Err(
            GenerationError::UnsupportedDialect,
        ),
{
    proof {
        reveal_strlit("zsh");
        reveal_strlit("fish");
        assert("zsh"@.len() == 3);
        assert("fish"@.len() == 4);
    }
    if str_eq(dialect, "zsh") {
        Result::Ok(generate_zsh(c))
    } else if str_eq(dialect, "fish") {
        Result::Ok(generate_fish(c))
    } else {
        Result::Err(GenerationError::UnsupportedDialect)
    }
}

} // verus!
