use termbridge::AiRequest;
use termbridge::AssistEvent;
use termbridge::AssistMode;
use termbridge::HistoryRing;
use termbridge::Session;
use termbridge::assist_reply;
use termbridge::build_system_prompt;
use termbridge::build_user_prompt;
use termbridge::classify_mode;
use termbridge::deliver_assist;
use termbridge::extract_command;
use termbridge::render_history;
use termbridge::resolve_dir;
use termbridge::str_starts_with;

#[test]
fn autocomplete_mode_from_completion_prefix() {
    let req = AiRequest { prompt: "complete este comando: lis".to_string(), output: None };
    assert_eq!(classify_mode(&req), AssistMode::Autocomplete);
}

#[test]
fn completion_prefix_survives_case_and_padding() {
    let req = AiRequest { prompt: "  Complete Este Comando: ls -l".to_string(), output: None };
    assert_eq!(classify_mode(&req), AssistMode::Autocomplete);
}

#[test]
fn output_forces_explain_output_mode() {
    let req = AiRequest {
        prompt: "complete este comando: lis".to_string(),
        output: Some("total 0\n".to_string()),
    };
    assert_eq!(classify_mode(&req), AssistMode::ExplainOutput);
}

#[test]
fn plain_prompt_is_explain_mode() {
    let req = AiRequest { prompt: "ls -la".to_string(), output: None };
    assert_eq!(classify_mode(&req), AssistMode::Explain);
}

#[test]
fn extracts_first_line_of_bash_block() {
    assert_eq!(extract_command("Claro!\n```bash\nls -la\n```\n"), "ls -la");
}

#[test]
fn extracts_from_untagged_block() {
    assert_eq!(extract_command("```\necho hi\nsecond line\n```"), "echo hi");
}

#[test]
fn extraction_trims_and_strips_carriage_return() {
    assert_eq!(extract_command("```bash\n  ls -la  \n```"), "ls -la");
    assert_eq!(extract_command("```bash\nls -la\r\nmore\n```"), "ls -la");
}

#[test]
fn no_block_extracts_nothing() {
    assert_eq!(extract_command("just prose, no fences"), "");
    assert_eq!(extract_command("```sh\nls\n```"), "");
    assert_eq!(extract_command("``` unclosed"), "");
}

#[test]
fn leftmost_block_wins() {
    assert_eq!(extract_command("```bash\nfirst\n```\n```bash\nsecond\n```"), "first");
}

#[test]
fn autocomplete_reply_is_extraction_and_injects() {
    let r = assist_reply(
        AssistEvent::Reply(Some("Claro!\n```bash\nls -la\n```\n".to_string())),
        AssistMode::Autocomplete,
    );
    assert_eq!(r.response, "ls -la");
    assert_eq!(r.inject, Some("ls -la".to_string()));
}

#[test]
fn explain_reply_is_full_text_and_still_injects() {
    let full = "Use assim:\n```bash\ngrep -r foo .\n```\n".to_string();
    let r = assist_reply(AssistEvent::Reply(Some(full.clone())), AssistMode::Explain);
    assert_eq!(r.response, full);
    assert_eq!(r.inject, Some("grep -r foo .".to_string()));
}

#[test]
fn explain_output_mode_never_injects() {
    let r = assist_reply(
        AssistEvent::Reply(Some("```bash\nrm -rf /tmp/x\n```".to_string())),
        AssistMode::ExplainOutput,
    );
    assert_eq!(r.inject, None);
    assert_eq!(r.response, "```bash\nrm -rf /tmp/x\n```");
}

#[test]
fn empty_extraction_injects_nothing() {
    let r = assist_reply(
        AssistEvent::Reply(Some("sem bloco de código".to_string())),
        AssistMode::Explain,
    );
    assert_eq!(r.inject, None);
}

#[test]
fn missing_content_yields_placeholder() {
    let r = assist_reply(AssistEvent::Reply(None), AssistMode::Explain);
    assert_eq!(r.response, "⚠️ Resposta vazia ou inválida do modelo");
    assert_eq!(r.inject, None);
}

#[test]
fn network_failure_yields_fixed_placeholder_and_no_injection() {
    let mut s = Session::new();
    s.ingest_chunk("root@host:~# ".to_string());
    let response = deliver_assist(&mut s, AssistEvent::NetworkError, AssistMode::Explain);
    assert_eq!(response, "Erro ao contactar DeepSeek");
    assert_eq!(s.consume_command(), None);
}

#[test]
fn decode_failure_yields_fixed_placeholder_and_no_injection() {
    let mut s = Session::new();
    s.ingest_chunk("root@host:~# ".to_string());
    let response = deliver_assist(&mut s, AssistEvent::DecodeError, AssistMode::Explain);
    assert_eq!(response, "Erro ao interpretar resposta da IA");
    assert_eq!(s.consume_command(), None);
}

#[test]
fn autocomplete_scenario_forwards_one_command() {
    let mut s = Session::new();
    s.ingest_chunk("root@host:~# ".to_string());
    let req = AiRequest { prompt: "complete este comando: lis".to_string(), output: None };
    let mode = classify_mode(&req);
    let response = deliver_assist(
        &mut s,
        AssistEvent::Reply(Some("Você quer:\n```bash\nls -la\n```\n".to_string())),
        mode,
    );
    assert_eq!(response, "ls -la");
    assert_eq!(s.consume_command(), Some("ls -la\n".to_string()));
    assert_eq!(s.consume_command(), None);
}

#[test]
fn injection_before_readiness_is_dropped() {
    let mut s = Session::new();
    let req = AiRequest { prompt: "explique ls".to_string(), output: None };
    let mode = classify_mode(&req);
    deliver_assist(
        &mut s,
        AssistEvent::Reply(Some("```bash\nls\n```".to_string())),
        mode,
    );
    assert_eq!(s.consume_command(), None);
}

#[test]
fn resolve_dir_substitutes_home_for_sentinel() {
    assert_eq!(resolve_dir("~", "/home/user"), "/home/user");
    assert_eq!(resolve_dir("/var/log", "/home/user"), "/var/log");
    assert_eq!(resolve_dir("", "/home/user"), "");
}

#[test]
fn history_renders_numbered_newest_first() {
    let mut h = HistoryRing::new();
    assert_eq!(render_history(&h), "");
    h.push("uno".to_string());
    assert_eq!(render_history(&h), "1. uno");
    h.push("dos".to_string());
    h.push("tres".to_string());
    h.push("cuatro".to_string());
    assert_eq!(render_history(&h), "1. cuatro\n2. tres\n3. dos");
}

#[test]
fn system_prompt_embeds_context() {
    let p = build_system_prompt("/srv", "a.txt\nb.txt", "1. ls");
    assert!(p.starts_with("Você é um assistente de terminal Linux. Diretório atual: /srv.\n"));
    assert!(p.contains("Arquivos:\na.txt\nb.txt\n"));
    assert!(p.contains("Comandos recentes:\n1. ls\n"));
    assert!(p.ends_with("explique com clareza e objetividade."));
}

#[test]
fn user_prompt_varies_by_mode() {
    let explain = AiRequest { prompt: "ls".to_string(), output: None };
    assert_eq!(build_user_prompt(&explain), "Explique o comando: ls");

    let auto = AiRequest { prompt: "complete este comando: lis".to_string(), output: None };
    assert_eq!(build_user_prompt(&auto), "complete este comando: lis");

    let with_output = AiRequest { prompt: "ls".to_string(), output: Some("a b c\n".to_string()) };
    assert_eq!(
        build_user_prompt(&with_output),
        "Explique a seguinte saída do comando 'ls':\n\na b c\n"
    );
}

#[test]
fn starts_with_matches_prefixes_only() {
    assert!(str_starts_with("complete este comando: x", "complete este comando:"));
    assert!(!str_starts_with("complete este", "complete este comando:"));
    assert!(!str_starts_with("complete esse comando: x", "complete este comando:"));
    assert!(str_starts_with("anything", ""));
}
