use shrcer::model::{AliasConfig, Config, Exports, Module, Path, ToolConfig};
use shrcer::render::{generate, generate_fish, generate_zsh, GenerationError};

fn empty_config() -> Config {
    Config::default()
}

#[test]
fn empty_config_renders_empty_zsh() {
    let c = empty_config();
    assert_eq!(generate_zsh(&c), "");
}

#[test]
fn empty_config_renders_empty_fish() {
    let c = empty_config();
    assert_eq!(generate_fish(&c), "");
}

#[test]
fn repeated_generation_is_byte_identical() {
    let c = empty_config();
    assert_eq!(generate_zsh(&c), generate_zsh(&c));
    assert_eq!(generate_fish(&c), generate_fish(&c));
    let mut rich = empty_config();
    rich.path.prepend.push("/usr/local/bin".to_string());
    rich.aliases.push((
        "ll".to_string(),
        AliasConfig { cmd: "ls -la".to_string(), if_condition: None, if_tool: Some("eza".to_string()) },
    ));
    assert_eq!(generate_zsh(&rich), generate_zsh(&rich));
    assert_eq!(generate_fish(&rich), generate_fish(&rich));
}

#[test]
fn path_prepend_before_append_in_declared_order() {
    let mut c = empty_config();
    c.path = Path {
        prepend: vec!["/a".to_string(), "/b".to_string()],
        append: vec!["/c".to_string()],
    };
    assert_eq!(
        generate_zsh(&c),
        "export PATH=\"/a:$PATH\"\nexport PATH=\"/b:$PATH\"\nexport PATH=\"$PATH:/c\"\n"
    );
    assert_eq!(
        generate_fish(&c),
        "set -gx PATH \"/a\" $PATH\nset -gx PATH \"/b\" $PATH\nset -gx PATH $PATH \"/c\"\n"
    );
}

#[test]
fn prepend_entry_placed_ahead_of_path_in_both_dialects() {
    let mut c = empty_config();
    c.path.prepend.push("/usr/local/bin".to_string());
    assert_eq!(generate_zsh(&c), "export PATH=\"/usr/local/bin:$PATH\"\n");
    assert_eq!(generate_fish(&c), "set -gx PATH \"/usr/local/bin\" $PATH\n");
}

#[test]
fn exports_common_then_dialect_specific_each_once() {
    let mut c = empty_config();
    c.exports = Exports {
        common: vec![("EDITOR".to_string(), "vim".to_string())],
        zsh: vec![("ZDOTDIR".to_string(), "~/.zsh".to_string())],
        fish: vec![("FOO".to_string(), "bar".to_string())],
    };
    let zsh = generate_zsh(&c);
    assert_eq!(zsh, "export EDITOR=\"vim\"\nexport ZDOTDIR=\"~/.zsh\"\n");
    assert_eq!(zsh.matches("EDITOR").count(), 1);
    assert_eq!(zsh.matches("ZDOTDIR").count(), 1);
    assert!(!zsh.contains("FOO"));
    let fish = generate_fish(&c);
    assert_eq!(fish, "set -gx EDITOR \"vim\"\nset -gx FOO \"bar\"\n");
    assert!(!fish.contains("ZDOTDIR"));
}

#[test]
fn module_plugins_render_before_code_zsh() {
    let mut c = empty_config();
    c.modules.push(Module {
        zsh_code: "echo hi".to_string(),
        fish_code: String::new(),
        plugins: vec!["foo/bar".to_string()],
    });
    assert_eq!(generate_zsh(&c), "znap source foo/bar\necho hi\n");
}

#[test]
fn module_plugins_render_before_code_fish() {
    let mut c = empty_config();
    c.modules.push(Module {
        zsh_code: String::new(),
        fish_code: "echo fish hi".to_string(),
        plugins: vec!["foo/bar".to_string()],
    });
    assert_eq!(generate_fish(&c), "fisher install foo/bar\necho fish hi\n");
}

#[test]
fn modules_render_in_declaration_order() {
    let mut c = empty_config();
    c.modules.push(Module {
        zsh_code: "one".to_string(),
        fish_code: String::new(),
        plugins: vec!["p/q".to_string(), "r/s".to_string()],
    });
    c.modules.push(Module {
        zsh_code: "two".to_string(),
        fish_code: String::new(),
        plugins: vec![],
    });
    assert_eq!(generate_zsh(&c), "znap source p/q\nznap source r/s\none\ntwo\n");
}

#[test]
fn empty_module_code_emits_nothing() {
    let mut c = empty_config();
    c.modules.push(Module::default());
    assert_eq!(generate_zsh(&c), "");
    assert_eq!(generate_fish(&c), "");
}

#[test]
fn alias_without_guards_is_unconditional() {
    let mut c = empty_config();
    c.aliases.push((
        "g".to_string(),
        AliasConfig { cmd: "git".to_string(), if_condition: None, if_tool: None },
    ));
    assert_eq!(generate_zsh(&c), "alias g=\"git\"\n");
    assert_eq!(generate_fish(&c), "alias g \"git\"\n");
}

#[test]
fn alias_with_tool_is_wrapped_in_command_guard() {
    let mut c = empty_config();
    c.aliases.push((
        "ll".to_string(),
        AliasConfig { cmd: "ls -la".to_string(), if_condition: None, if_tool: Some("eza".to_string()) },
    ));
    assert_eq!(
        generate_zsh(&c),
        "if command -v eza >/dev/null 2>&1; then\nalias ll=\"ls -la\"\nfi\n"
    );
    assert_eq!(generate_fish(&c), "if type -q eza\nalias ll \"ls -la\"\nend\n");
}

#[test]
fn alias_with_condition_is_wrapped_in_condition_guard() {
    let mut c = empty_config();
    c.aliases.push((
        "t".to_string(),
        AliasConfig {
            cmd: "tmux attach".to_string(),
            if_condition: Some("[ -n \"$TMUX\" ]".to_string()),
            if_tool: None,
        },
    ));
    assert_eq!(
        generate_zsh(&c),
        "if [ -n \"$TMUX\" ]; then\nalias t=\"tmux attach\"\nfi\n"
    );
}

#[test]
fn alias_with_condition_and_tool_requires_both() {
    let mut c = empty_config();
    c.aliases.push((
        "x".to_string(),
        AliasConfig {
            cmd: "run".to_string(),
            if_condition: Some("[ -z \"$CI\" ]".to_string()),
            if_tool: Some("run".to_string()),
        },
    ));
    assert_eq!(
        generate_zsh(&c),
        "if [ -z \"$CI\" ] && command -v run >/dev/null 2>&1; then\nalias x=\"run\"\nfi\n"
    );
}

#[test]
fn tool_with_both_guards_requires_both() {
    let mut c = empty_config();
    c.tools.push((
        "docker".to_string(),
        ToolConfig {
            if_cmd: Some("docker".to_string()),
            if_file: Some("/etc/docker".to_string()),
            zsh_code: "dstart".to_string(),
            fish_code: String::new(),
            exports: vec![("DOCKER_HOST".to_string(), "tcp://x".to_string())],
            path: Path {
                prepend: vec!["/opt/docker/bin".to_string()],
                append: vec![],
            },
        },
    ));
    assert_eq!(
        generate_zsh(&c),
        "if command -v docker >/dev/null 2>&1 && [ -f \"/etc/docker\" ]; then\n\
         export PATH=\"/opt/docker/bin:$PATH\"\n\
         export DOCKER_HOST=\"tcp://x\"\n\
         dstart\nfi\n"
    );
    assert_eq!(
        generate_fish(&c),
        "if type -q docker && test -f \"/etc/docker\"\n\
         set -gx PATH \"/opt/docker/bin\" $PATH\n\
         set -gx DOCKER_HOST \"tcp://x\"\nend\n"
    );
}

#[test]
fn tool_without_guards_emits_effects_unconditionally() {
    let mut c = empty_config();
    c.tools.push((
        "misc".to_string(),
        ToolConfig {
            if_cmd: None,
            if_file: None,
            zsh_code: "setup".to_string(),
            fish_code: "setup fish".to_string(),
            exports: vec![],
            path: Path::default(),
        },
    ));
    assert_eq!(generate_zsh(&c), "setup\n");
    assert_eq!(generate_fish(&c), "setup fish\n");
}

#[test]
fn tool_with_file_guard_only() {
    let mut c = empty_config();
    c.tools.push((
        "local".to_string(),
        ToolConfig {
            if_cmd: None,
            if_file: Some("~/.local.sh".to_string()),
            zsh_code: "source ~/.local.sh".to_string(),
            fish_code: String::new(),
            exports: vec![],
            path: Path::default(),
        },
    ));
    assert_eq!(
        generate_zsh(&c),
        "if [ -f \"~/.local.sh\" ]; then\nsource ~/.local.sh\nfi\n"
    );
}

#[test]
fn sections_render_in_fixed_order() {
    let mut c = empty_config();
    c.path.prepend.push("/p".to_string());
    c.exports.common.push(("K".to_string(), "v".to_string()));
    c.modules.push(Module {
        zsh_code: "mod".to_string(),
        fish_code: String::new(),
        plugins: vec![],
    });
    c.aliases.push((
        "a".to_string(),
        AliasConfig { cmd: "b".to_string(), if_condition: None, if_tool: None },
    ));
    c.tools.push((
        "t".to_string(),
        ToolConfig {
            if_cmd: None,
            if_file: None,
            zsh_code: "tool".to_string(),
            fish_code: String::new(),
            exports: vec![],
            path: Path::default(),
        },
    ));
    assert_eq!(
        generate_zsh(&c),
        "export PATH=\"/p:$PATH\"\nexport K=\"v\"\nmod\nalias a=\"b\"\ntool\n"
    );
}

#[test]
fn generate_by_name_recognizes_both_dialects() {
    let mut c = empty_config();
    c.path.prepend.push("/p".to_string());
    assert_eq!(generate(&c, "zsh"), Ok(generate_zsh(&c)));
    assert_eq!(generate(&c, "fish"), Ok(generate_fish(&c)));
}

#[test]
fn generate_by_name_refuses_unknown_dialect() {
    let c = empty_config();
    assert_eq!(generate(&c, "bash"), Err(GenerationError::UnsupportedDialect));
    assert_eq!(generate(&c, ""), Err(GenerationError::UnsupportedDialect));
}

#[test]
fn defaults_are_all_empty() {
    let c = Config::default();
    assert!(c.modules.is_empty());
    assert!(c.exports.common.is_empty());
    assert!(c.exports.zsh.is_empty());
    assert!(c.exports.fish.is_empty());
    assert!(c.path.prepend.is_empty());
    assert!(c.path.append.is_empty());
    assert!(c.aliases.is_empty());
    assert!(c.znap.is_none());
    assert!(c.tools.is_empty());
    let m = Module::default();
    assert_eq!(m.zsh_code, "");
    assert_eq!(m.fish_code, "");
    assert!(m.plugins.is_empty());
    let t = ToolConfig::default();
    assert!(t.if_cmd.is_none());
    assert!(t.if_file.is_none());
    let z = shrcer::model::ZnapConfig::default();
    assert_eq!(z.custom_path, "");
}
