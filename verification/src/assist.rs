//! Assistant request handling: prompt composition, mode selection, and what
//! to do with the service's reply.
//!
//! The caller supplies the outcome of the one request to the suggestion
//! service; everything decided here — which instructions were sent, what the
//! endpoint answers, and whether an extracted command is forwarded into the
//! command channel — is a function of that outcome and the session state.

use vstd::prelude::*;
use crate::extract::block_extract;
use crate::extract::extract_command;
use crate::history::HistoryRing;
use crate::session::Session;
use crate::textops::lower_of;
use crate::textops::lower_str;
use crate::textops::trim_of;
use crate::textops::trim_str;

verus! {

/// One assistant request: the free-text prompt, and optionally the command
/// output to be explained.
pub struct AiRequest {
    pub prompt: String,
    pub output: Option<String>,
}

/// How a request is served: explaining captured output, completing a partial
/// command, or explaining a command.
#[derive(PartialEq, Eq, Structural, Clone, Copy, Debug)]
pub enum AssistMode {
    ExplainOutput,
    Autocomplete,
    Explain,
}

/// The outcome of the one request to the suggestion service.
pub enum AssistEvent {
    /// The service could not be reached.
    NetworkError,
    /// The service answered, but not with a decodable body.
    DecodeError,
    /// The service answered; the message content, when the body carried one.
    Reply(Option<String>),
}

/// What the endpoint answers, and what is forwarded to the shell.
pub struct AssistReply {
    pub response: String,
    pub inject: Option<String>,
}

/// `p` is a prefix of `s`.
pub open spec fn starts_with(s: Seq<char>, p: Seq<char>) -> bool {
    p.len() <= s.len() && s.subrange(0, p.len() as int) == p
}

/// The mode a request falls under: output present means explain-that-output;
/// otherwise a prompt opening (case-insensitively, after trimming) with the
/// completion marker asks for completion; anything else is a plain explain.
pub open spec fn mode_spec(prompt: Seq<char>, has_output: bool) -> AssistMode {
    if has_output {
        AssistMode::ExplainOutput
    } else if starts_with(lower_of(trim_of(prompt)), "complete este comando:"@) {
        AssistMode::Autocomplete
    } else {
        AssistMode::Explain
    }
}

/// The reply text worked on: the service's content, or the fixed placeholder
/// when the body carried none.
pub open spec fn full_text_of(c: Option<String>) -> Seq<char> {
    match c {
        Some(s) => s@,
        None => "⚠️ Resposta vazia ou inválida do modelo"@,
    }
}

/// What the endpoint answers: a fixed placeholder on a failed or undecodable
/// request, the extracted command alone in autocomplete mode, the full reply
/// text otherwise.
pub open spec fn reply_response(event: AssistEvent, mode: AssistMode) -> Seq<char> {
    match event {
        AssistEvent::NetworkError => "Erro ao contactar DeepSeek"@,
        AssistEvent::DecodeError => "Erro ao interpretar resposta da IA"@,
        AssistEvent::Reply(c) => if mode is Autocomplete {
            block_extract(full_text_of(c))
        } else {
            full_text_of(c)
        },
    }
}

/// What is forwarded to the shell: the extracted command, exactly when the
/// service replied, the extraction is nonempty, and the call is not an
/// explain-of-output one.
pub open spec fn reply_inject(event: AssistEvent, mode: AssistMode) -> Option<Seq<char>> {
    match event {
        AssistEvent::Reply(c) => if block_extract(full_text_of(c)).len() > 0 && !(
        mode is ExplainOutput) {
            Some(block_extract(full_text_of(c)))
        } else {
            None
        },
        _ => None,
    }
}

/// Does `s` start with `p`?
pub fn str_starts_with(s: &str, p: &str) -> (b: bool)
    ensures
        b == starts_with(s@, p@),
{
    let n = s.unicode_len();
    let pn = p.unicode_len();
    if pn > n {
        return false;
    }
    let mut k: usize = 0;
    while k < pn
        invariant
            k <= pn <= n,
            n == s@.len(),
            pn == p@.len(),
            forall|q: int| 0 <= q < k ==> s@[q] == p@[q],
        decreases pn - k,
    {
        if s.get_char(k) != p.get_char(k) {
            proof {
                assert(s@.subrange(0, pn as int)[k as int] == s@[k as int]);
            }
            return false;
        }
        k = k + 1;
    }
    proof {
        assert(s@.subrange(0, pn as int) =~= p@);
    }
    true
}

/// Decide how a request is served.
pub fn classify_mode(req: &AiRequest) -> (m: AssistMode)
    ensures
        m == mode_spec(req.prompt@, req.output is Some),
{
    match &req.output {
        Some(_) => AssistMode::ExplainOutput,
        None => {
            let trimmed = trim_str(req.prompt.as_str());
            let low = lower_str(trimmed);
            if str_starts_with(low.as_str(), "complete este comando:") {
                AssistMode::Autocomplete
            } else {
                AssistMode::Explain
            }
        },
    }
}

/// The directory a sentinel resolves to: the home directory for `~`, the
/// fact itself otherwise.
pub open spec fn resolved_dir(raw: Seq<char>, home: Seq<char>) -> Seq<char> {
    if raw == seq!['~'] {
        home
    } else {
        raw
    }
}

/// Substitute the home directory for the sentinel fact.
pub fn resolve_dir(raw: &str, home: &str) -> (r: String)
    ensures
        r@ == resolved_dir(raw@, home@),
{
    if raw.unicode_len() == 1 && raw.get_char(0) == '~' {
        proof {
            assert(raw@ =~= seq!['~']);
        }
        home.to_owned()
    } else {
        proof {
            if raw@ == seq!['~'] {
                assert(raw@[0] == '~' && raw@.len() == 1);
                assert(false);
            }
        }
        raw.to_owned()
    }
}

/// The most recent history, newest first, at most three entries.
pub open spec fn recent3_spec(h: Seq<Seq<char>>) -> Seq<Seq<char>> {
    Seq::new(
        if h.len() < 3 {
            h.len()
        } else {
            3
        },
        |i: int| h[h.len() - 1 - i],
    )
}

/// The numbered rendering of the recent history, one line per entry.
pub open spec fn render_recent(r: Seq<Seq<char>>) -> Seq<char> {
    if r.len() == 0 {
        Seq::empty()
    } else if r.len() == 1 {
        "1. "@ + r[0]
    } else if r.len() == 2 {
        "1. "@ + r[0] + "\n2. "@ + r[1]
    } else {
        "1. "@ + r[0] + "\n2. "@ + r[1] + "\n3. "@ + r[2]
    }
}

/// Render the last three submitted commands, most recent first, as a
/// numbered list.
pub fn render_history(h: &HistoryRing) -> (out: String)
    ensures
        out@ == render_recent(recent3_spec(h@)),
{
    let r3 = h.recent3();
    proof {
        assert(r3@.len() == recent3_spec(h@).len());
        assert forall|i: int| 0 <= i < r3@.len() implies r3@[i]@ == recent3_spec(h@)[i] by {}
    }
    let mut out = String::new();
    if r3.len() == 0 {
        return out;
    }
    out.append("1. ");
    out.append(r3[0].as_str());
    if r3.len() >= 2 {
        out.append("\n2. ");
        out.append(r3[1].as_str());
    }
    if r3.len() >= 3 {
        out.append("\n3. ");
        out.append(r3[2].as_str());
    }
    out
}

/// Compose the system instruction: current directory, its listing, and the
/// recent history, followed by the fixed answering rules.
pub fn build_system_prompt(dir: &str, files: &str, hist: &str) -> (r: String)
    ensures
        r@ == "Você é um assistente de terminal Linux. Diretório atual: "@ + dir@
            + ".\nArquivos:\n"@ + files@ + "\nComandos recentes:\n"@ + hist@
            + "\nResponda apenas com UM comando bash dentro de bloco markdown, quando for solicitado um comando. Quando for solicitada uma explicação de saída, explique com clareza e objetividade."@,
{
    let mut r = String::from_str("Você é um assistente de terminal Linux. Diretório atual: ");
    r.append(dir);
    r.append(".\nArquivos:\n");
    r.append(files);
    r.append("\nComandos recentes:\n");
    r.append(hist);
    r.append(
        "\nResponda apenas com UM comando bash dentro de bloco markdown, quando for solicitado um comando. Quando for solicitada uma explicação de saída, explique com clareza e objetividade.",
    );
    r
}

/// Compose the user instruction: explain the given output, pass a completion
/// request through unchanged, or ask for an explanation of the command.
pub fn build_user_prompt(req: &AiRequest) -> (r: String)
    ensures
        match req.output {
            Some(o) => r@ == "Explique a seguinte saída do comando '"@ + req.prompt@ + "':\n\n"@
                + o@,
            None => if mode_spec(req.prompt@, false) is Autocomplete {
                r@ == req.prompt@
            } else {
                r@ == "Explique o comando: "@ + req.prompt@
            },
        },
{
    match &req.output {
        Some(o) => {
            let mut r = String::from_str("Explique a seguinte saída do comando '");
            r.append(req.prompt.as_str());
            r.append("':\n\n");
            r.append(o.as_str());
            r
        },
        None => {
            let trimmed = trim_str(req.prompt.as_str());
            let low = lower_str(trimmed);
            if str_starts_with(low.as_str(), "complete este comando:") {
                req.prompt.clone()
            } else {
                let mut r = String::from_str("Explique o comando: ");
                r.append(req.prompt.as_str());
                r
            }
        },
    }
}

/// Turn the service outcome into the endpoint's reply: a failure becomes a
/// fixed placeholder and injects nothing; a reply is extracted from, answered
/// with the extraction alone in autocomplete mode, and the extraction is
/// offered for injection unless this explains captured output.
pub fn assist_reply(event: AssistEvent, mode: AssistMode) -> (r: AssistReply)
    ensures
        r.response@ == reply_response(event, mode),
        match (r.inject, reply_inject(event, mode)) {
            (Some(x), Some(y)) => x@ == y,
            (None, None) => true,
            _ => false,
        },
{
    match event {
        AssistEvent::NetworkError => AssistReply {
            response: String::from_str("Erro ao contactar DeepSeek"),
            inject: None,
        },
        AssistEvent::DecodeError => AssistReply {
            response: String::from_str("Erro ao interpretar resposta da IA"),
            inject: None,
        },
        AssistEvent::Reply(c) => {
            let full: String = match c {
                Some(s) => s,
                None => String::from_str("⚠️ Resposta vazia ou inválida do modelo"),
            };
            let extracted = extract_command(full.as_str());
            let inject: Option<String> = if !extracted.as_str().is_empty() && mode
                != AssistMode::ExplainOutput {
                Some(extracted.clone())
            } else {
                None
            };
            let response: String = if mode == AssistMode::Autocomplete {
                extracted
            } else {
                full
            };
            AssistReply { response, inject }
        },
    }
}

/// Serve one assistant request end to end on the session: compute the reply
/// and forward any extracted command into the command channel, where it is
/// dropped if the shell is not ready.
pub fn deliver_assist(session: &mut Session, event: AssistEvent, mode: AssistMode) -> (response:
    String)
    requires
        old(session).wf(),
    ensures
        final(session).wf(),
        response@ == reply_response(event, mode),
        match reply_inject(event, mode) {
            Some(cmd) => (old(session).is_ready() ==> final(session).queue_view() =~= old(
                session,
            ).queue_view().push(cmd)) && (!old(session).is_ready() ==> final(session).queue_view()
                =~= old(session).queue_view()),
            None => final(session).queue_view() =~= old(session).queue_view(),
        },
        final(session).is_ready() == old(session).is_ready(),
        final(session).buffer_view() == old(session).buffer_view(),
        final(session).hub_view() == old(session).hub_view(),
        final(session).dir_view() == old(session).dir_view(),
        final(session).history_view() == old(session).history_view(),
{
    let r = assist_reply(event, mode);
    match r.inject {
        Some(cmd) => {
            session.submit_command(cmd);
        },
        None => {},
    }
    r.response
}

} // verus!
