//! Codex Desktop: the PowerShell queries that find, close and restart it,
//! and the DevTools commands that inject the provider's models into it.

use vstd::prelude::*;

use crate::json::{
    JsonSpec, JsonValue, as_str, as_str_spec, duplicate, get, get_spec, as_u64, as_u64_spec,
    items_view, json_parse, lemma_array_view, parse_json,
};
use crate::switcher::{ApiError, ApiResult, ErrorSpec, detailed_spec, error_spec};
use crate::text::{
    copy_str, decimal, decimal_string, opt_text, push_str, replace_all, replace_str, trim, trim_str,
};

verus! {

pub const CODEX_PACKAGE_NAME: &'static str = "OpenAI.Codex";

pub const CODEX_APPLICATION_ID: &'static str = "App";

pub const CDP_TARGET_MISSING: &'static str = "cdp_target_missing";

pub const CDP_TARGET_MISSING_MSG: &'static str = "Codex 没有暴露可注入的页面目标。";

pub const CODEX_EXECUTABLE_MISSING: &'static str = "codex_executable_missing";

pub const CODEX_EXECUTABLE_MISSING_MSG: &'static str = "未找到 Codex Desktop 可执行文件，请手动启动 Codex。";

pub const CDP_INJECTION_TIMEOUT: &'static str = "cdp_injection_timeout";

pub const CDP_INJECTION_TIMEOUT_MSG: &'static str = "等待 Codex 调试端口超时。";

pub const SCRIPT_HEAD: &'static str = "\n(() => {\n  const customModels = ";

pub const SCRIPT_TAIL: &'static str = ";\n  const state = window.__CODEX_API_SWITCHER__ || {};\n  state.models = customModels;\n  state.installedAt = Date.now();\n  window.__CODEX_API_SWITCHER__ = state;\n\n  const mergeModels = (value) => {\n    if (!value || typeof value !== \"object\") return value;\n    const mergeArray = (items) => {\n      const existing = new Set(items.map((item) => item && (item.slug || item.id || item.model)));\n      for (const model of customModels) {\n        if (!existing.has(model.slug)) items.push({ ...model });\n      }\n      return items;\n    };\n    if (Array.isArray(value)) return mergeArray(value);\n    for (const key of [\"models\", \"data\", \"items\", \"available_models\", \"availableModels\"]) {\n      if (Array.isArray(value[key])) mergeArray(value[key]);\n    }\n    return value;\n  };\n\n  if (!state.responsePatched) {\n    const originalJson = Response.prototype.json;\n    Response.prototype.json = async function (...args) {\n      const value = await originalJson.apply(this, args);\n      try {\n        const url = String(this.url || \"\");\n        if (/model|catalog/i.test(url)) mergeModels(value);\n      } catch (_) {}\n      return value;\n    };\n    state.responsePatched = true;\n  }\n\n  window.dispatchEvent(new CustomEvent(\"codex-api-switcher:models\", {\n    detail: { models: customModels }\n  }));\n})();\n";

/// A text inside a PowerShell single-quoted string: quotes doubled.
pub open spec fn single_quoted_spec(value: Seq<char>) -> Seq<char> {
    replace_all(value, "'"@, "''"@)
}

pub fn powershell_single_quote(value: &str) -> (out: String)
    ensures
        out@ == single_quoted_spec(value@),
{
    proof {
        reveal_strlit("'");
    }
    replace_str(value, "'", "''")
}

/// The query for the Codex package: its version, install location and
/// family name as compact JSON.
pub fn package_query_script() -> (out: String)
    ensures
        out@ == "Get-AppxPackage -Name "@ + CODEX_PACKAGE_NAME@
            + " | Select-Object Version,InstallLocation,PackageFamilyName | ConvertTo-Json -Compress"@,
{
    let mut out = copy_str("Get-AppxPackage -Name ");
    push_str(&mut out, CODEX_PACKAGE_NAME);
    push_str(&mut out, " | Select-Object Version,InstallLocation,PackageFamilyName | ConvertTo-Json -Compress");
    out
}

/// Where the package says Codex is installed, and the application's model
/// ID (`<family>!App`); `None` when the package lacks either field.
pub open spec fn package_install_spec(package: JsonSpec) -> Option<(Seq<char>, Seq<char>)> {
    match (
        as_str_spec(get_spec(package, "InstallLocation"@)),
        as_str_spec(get_spec(package, "PackageFamilyName"@)),
    ) {
        (Some(install), Some(family)) => Some((install, family + "!"@ + CODEX_APPLICATION_ID@)),
        _ => None,
    }
}

pub fn package_install(package: &JsonValue) -> (out: Option<(String, String)>)
    ensures
        match out {
            Some(pair) => package_install_spec(package@) == Some((pair.0@, pair.1@)),
            None => package_install_spec(package@) is None,
        },
{
    let install = match as_str(get(package, "InstallLocation")) {
        Some(s) => s,
        None => {
            return None;
        },
    };
    let family = match as_str(get(package, "PackageFamilyName")) {
        Some(s) => s,
        None => {
            return None;
        },
    };
    let mut app_id = copy_str(family.as_str());
    push_str(&mut app_id, "!");
    push_str(&mut app_id, CODEX_APPLICATION_ID);
    Some((copy_str(install.as_str()), app_id))
}

/// The version that the package reports, when it reports one.
pub fn package_version(package: Option<&JsonValue>) -> (out: Option<String>)
    ensures
        opt_text(out) == match package {
            Some(p) => as_str_spec(get_spec(p@, "Version"@)),
            None => None,
        },
{
    match package {
        Some(p) => match as_str(get(p, "Version")) {
            Some(v) => Some(copy_str(v.as_str())),
            None => None,
        },
        None => None,
    }
}

/// The query whether Codex (the given executable) is running; it prints `1`
/// or `0`.
pub fn running_query_script(executable_path: &str) -> (out: String)
    ensures
        out@ == "if (Get-Process -Name ChatGPT -ErrorAction SilentlyContinue | Where-Object { $_.Path -ieq '"@
            + single_quoted_spec(executable_path@) + "' }) { '1' } else { '0' }"@,
{
    let quoted = powershell_single_quote(executable_path);
    let mut out = copy_str("if (Get-Process -Name ChatGPT -ErrorAction SilentlyContinue | Where-Object { $_.Path -ieq '");
    push_str(&mut out, quoted.as_str());
    push_str(&mut out, "' }) { '1' } else { '0' }");
    out
}

/// Codex runs when the query printed `1`.
pub fn is_running_output(output: Option<String>) -> (out: bool)
    ensures
        out == match output {
            Some(s) => trim(s@) == "1"@,
            None => false,
        },
{
    match output {
        Some(s) => {
            let t = trim_str(s.as_str());
            let one = copy_str("1");
            t == one
        },
        None => false,
    }
}

/// The request to close Codex's main windows.
pub fn close_request_script(executable_path: &str) -> (out: String)
    ensures
        out@ == "Get-Process -Name ChatGPT -ErrorAction SilentlyContinue | Where-Object { $_.Path -ieq '"@
            + single_quoted_spec(executable_path@)
            + "' -and $_.MainWindowHandle -ne 0 } | ForEach-Object { [void]$_.CloseMainWindow() }"@,
{
    let quoted = powershell_single_quote(executable_path);
    let mut out = copy_str("Get-Process -Name ChatGPT -ErrorAction SilentlyContinue | Where-Object { $_.Path -ieq '");
    push_str(&mut out, quoted.as_str());
    push_str(&mut out, "' -and $_.MainWindowHandle -ne 0 } | ForEach-Object { [void]$_.CloseMainWindow() }");
    out
}

/// The command that ends Codex's root processes and their children.
pub fn force_close_script(executable_path: &str) -> (out: String)
    ensures
        out@ == "$roots = Get-CimInstance Win32_Process -Filter \"Name='ChatGPT.exe'\" | Where-Object { $_.ExecutablePath -ieq '"@
            + single_quoted_spec(executable_path@)
            + "' -and $_.CommandLine -notmatch '(?:^|\\s)--type=' }; foreach ($process in $roots) { & taskkill.exe /PID $process.ProcessId /T /F *> $null }"@,
{
    let quoted = powershell_single_quote(executable_path);
    let mut out = copy_str("$roots = Get-CimInstance Win32_Process -Filter \"Name='ChatGPT.exe'\" | Where-Object { $_.ExecutablePath -ieq '");
    push_str(&mut out, quoted.as_str());
    push_str(&mut out, "' -and $_.CommandLine -notmatch '(?:^|\\s)--type=' }; foreach ($process in $roots) { & taskkill.exe /PID $process.ProcessId /T /F *> $null }");
    out
}

/// The arguments Codex restarts with: the DevTools endpoint on the given
/// local port when models are injected, none otherwise.
pub fn restart_arguments(port: Option<u16>) -> (out: String)
    ensures
        out@ == match port {
            Some(p) => "--remote-debugging-address=127.0.0.1 --remote-debugging-port="@ + decimal(
                p as nat,
            ) + " --remote-allow-origins=http://127.0.0.1:"@ + decimal(p as nat),
            None => Seq::<char>::empty(),
        },
{
    match port {
        Some(p) => {
            let n = decimal_string(p as u128);
            let mut out = copy_str("--remote-debugging-address=127.0.0.1 --remote-debugging-port=");
            push_str(&mut out, n.as_str());
            push_str(&mut out, " --remote-allow-origins=http://127.0.0.1:");
            push_str(&mut out, n.as_str());
            out
        },
        None => String::new(),
    }
}

/// Restarting needs the installed executable.
pub fn ensure_desktop_found(found: bool) -> (out: ApiResult<()>)
    ensures
        out is Ok <==> found,
        out matches Err(e) ==> e@ == error_spec(
            CODEX_EXECUTABLE_MISSING@,
            CODEX_EXECUTABLE_MISSING_MSG@,
        ),
{
    if !found {
        return Err(ApiError::new(CODEX_EXECUTABLE_MISSING, CODEX_EXECUTABLE_MISSING_MSG));
    }
    Ok(())
}

/// The DevTools endpoint that lists the targets of a local port.
pub fn targets_endpoint(port: u16) -> (out: String)
    ensures
        out@ == "http://127.0.0.1:"@ + decimal(port as nat) + "/json"@,
{
    let n = decimal_string(port as u128);
    let mut out = copy_str("http://127.0.0.1:");
    push_str(&mut out, n.as_str());
    push_str(&mut out, "/json");
    out
}

pub open spec fn debugger_url_of(t: JsonSpec) -> Option<Seq<char>> {
    as_str_spec(get_spec(t, "webSocketDebuggerUrl"@))
}

pub open spec fn is_page(t: JsonSpec) -> bool {
    as_str_spec(get_spec(t, "type"@)) == Some("page"@)
}

/// Index of the first target at or after `i` that is a page with a
/// debugger URL (`pages_only`), or that has one at all; else the length.
pub open spec fn first_target(ts: Seq<JsonSpec>, pages_only: bool, i: int) -> int
    decreases ts.len() - i,
{
    if i < 0 || i >= ts.len() {
        ts.len() as int
    } else if (!pages_only || is_page(ts[i])) && debugger_url_of(ts[i]) is Some {
        i
    } else {
        first_target(ts, pages_only, i + 1)
    }
}

proof fn lemma_first_target(ts: Seq<JsonSpec>, pages_only: bool, i: int)
    requires
        0 <= i <= ts.len(),
    ensures
        i <= first_target(ts, pages_only, i) <= ts.len(),
    decreases ts.len() - i,
{
    if i < ts.len() && !((!pages_only || is_page(ts[i])) && debugger_url_of(ts[i]) is Some) {
        lemma_first_target(ts, pages_only, i + 1);
    }
}

/// The WebSocket to inject through: the first page target's debugger URL,
/// else any target's, else an error.
pub open spec fn debugger_url_spec(ts: Seq<JsonSpec>) -> Result<Seq<char>, ErrorSpec> {
    let p = first_target(ts, true, 0);
    let a = first_target(ts, false, 0);
    if p < ts.len() {
        Ok(debugger_url_of(ts[p])->0)
    } else if a < ts.len() {
        Ok(debugger_url_of(ts[a])->0)
    } else {
        Err(error_spec(CDP_TARGET_MISSING@, CDP_TARGET_MISSING_MSG@))
    }
}

pub open spec fn targets_view(v: Seq<JsonValue>) -> Seq<JsonSpec> {
    v.map_values(|t: JsonValue| t@)
}

fn find_target(targets: &Vec<JsonValue>, pages_only: bool) -> (out: Option<String>)
    ensures
        ({
            let ts = targets_view(targets@);
            let k = first_target(ts, pages_only, 0);
            match out {
                Some(u) => k < ts.len() && debugger_url_of(ts[k]) == Some(u@),
                None => k == ts.len(),
            }
        }),
{
    let ghost ts = targets_view(targets@);
    proof {
        lemma_first_target(ts, pages_only, 0);
    }
    let mut i: usize = 0;
    while i < targets.len()
        invariant
            i <= targets.len(),
            ts == targets_view(targets@),
            first_target(ts, pages_only, 0) == first_target(ts, pages_only, i as int),
        decreases targets.len() - i,
    {
        assert(ts[i as int] == targets@[i as int]@);
        let page = match as_str(get(&targets[i], "type")) {
            Some(t) => {
                let page = copy_str("page");
                *t == page
            },
            None => false,
        };
        if !pages_only || page {
            match as_str(get(&targets[i], "webSocketDebuggerUrl")) {
                Some(url) => {
                    return Some(copy_str(url.as_str()));
                },
                None => {},
            }
        }
        i = i + 1;
    }
    None
}

pub fn select_debugger_url(targets: &Vec<JsonValue>) -> (out: ApiResult<String>)
    ensures
        match out {
            Ok(u) => debugger_url_spec(targets_view(targets@)) == Ok::<Seq<char>, ErrorSpec>(u@),
            Err(e) => debugger_url_spec(targets_view(targets@)) == Err::<Seq<char>, ErrorSpec>(e@),
        },
{
    match find_target(targets, true) {
        Some(url) => Ok(url),
        None => match find_target(targets, false) {
            Some(url) => Ok(url),
            None => Err(ApiError::new(CDP_TARGET_MISSING, CDP_TARGET_MISSING_MSG)),
        },
    }
}

/// The script injected into Codex: it publishes the models (as serialised
/// JSON) and merges them into every model list that Codex fetches.
pub fn build_injection_script(serialized_models: &str) -> (out: String)
    ensures
        out@ == SCRIPT_HEAD@ + serialized_models@ + SCRIPT_TAIL@,
{
    let mut out = copy_str(SCRIPT_HEAD);
    push_str(&mut out, serialized_models);
    push_str(&mut out, SCRIPT_TAIL);
    out
}

/// One DevTools command: its ID, method and parameters.
pub struct CdpCommand {
    pub id: u64,
    pub method: String,
    pub params: JsonValue,
}

/// The three commands of an injection: enable the page domain, install the
/// script for new documents, and run it now.
pub fn injection_commands(script: &str) -> (out: Vec<CdpCommand>)
    ensures
        out@.len() == 3,
        out@[0].id == 1 && out@[0].method@ == "Page.enable"@ && out@[0].params@
            == JsonSpec::Object(Seq::empty()),
        out@[1].id == 2 && out@[1].method@ == "Page.addScriptToEvaluateOnNewDocument"@
            && out@[1].params@ == JsonSpec::Object(seq![("source"@, JsonSpec::Str(script@))]),
        out@[2].id == 3 && out@[2].method@ == "Runtime.evaluate"@ && out@[2].params@
            == JsonSpec::Object(
            seq![
                ("expression"@, JsonSpec::Str(script@)),
                ("awaitPromise"@, JsonSpec::Bool(false)),
                ("returnByValue"@, JsonSpec::Bool(true)),
            ],
        ),
{
    let mut out: Vec<CdpCommand> = Vec::new();
    let empty: Vec<(String, JsonValue)> = Vec::new();
    proof {
        crate::json::lemma_object_view(empty);
        assert(crate::json::members_view(empty@) =~= Seq::empty());
    }
    let enable = JsonValue::Object(empty);
    out.push(CdpCommand { id: 1, method: copy_str("Page.enable"), params: enable });
    let mut source: Vec<(String, JsonValue)> = Vec::new();
    source.push((copy_str("source"), JsonValue::Str(copy_str(script))));
    proof {
        crate::json::lemma_object_view(source);
        assert(crate::json::members_view(source@) =~= seq![("source"@, JsonSpec::Str(script@))]);
    }
    out.push(
        CdpCommand {
            id: 2,
            method: copy_str("Page.addScriptToEvaluateOnNewDocument"),
            params: JsonValue::Object(source),
        },
    );
    let mut evaluate: Vec<(String, JsonValue)> = Vec::new();
    evaluate.push((copy_str("expression"), JsonValue::Str(copy_str(script))));
    evaluate.push((copy_str("awaitPromise"), JsonValue::Bool(false)));
    evaluate.push((copy_str("returnByValue"), JsonValue::Bool(true)));
    proof {
        crate::json::lemma_object_view(evaluate);
        assert(crate::json::members_view(evaluate@) =~= seq![
            ("expression"@, JsonSpec::Str(script@)),
            ("awaitPromise"@, JsonSpec::Bool(false)),
            ("returnByValue"@, JsonSpec::Bool(true)),
        ]);
    }
    out.push(CdpCommand { id: 3, method: copy_str("Runtime.evaluate"), params: JsonValue::Object(evaluate) });
    out
}

/// How a DevTools message answers the command `id`.
#[derive(Debug, Clone, Copy, PartialEq, Eq, Structural)]
pub enum CommandReply {
    /// Not the answer to this command.
    Other,
    /// The command succeeded.
    Done,
    /// The command was rejected; the message has an `error` member.
    Rejected,
}

/// A message answers the command when its `id` is the command's; it rejects
/// it when it has an `error` member.
pub fn classify_reply(message: &JsonValue, id: u64) -> (out: CommandReply)
    ensures
        out == (if as_u64_spec(get_spec(message@, "id"@)) != Some(id) {
            CommandReply::Other
        } else if get_spec(message@, "error"@) is Some {
            CommandReply::Rejected
        } else {
            CommandReply::Done
        }),
{
    if as_u64(get(message, "id")) != Some(id) {
        return CommandReply::Other;
    }
    if get(message, "error").is_some() {
        return CommandReply::Rejected;
    }
    CommandReply::Done
}

/// The error of a command that Codex rejected, with the rejection as detail.
pub fn command_rejected_error(method: &str, detail: &str) -> (out: ApiError)
    ensures
        out@ == detailed_spec("cdp_command_rejected"@, "Codex 拒绝 CDP 命令 "@ + method@ + "。"@, detail@),
{
    let mut message = copy_str("Codex 拒绝 CDP 命令 ");
    push_str(&mut message, method);
    push_str(&mut message, "。");
    ApiError::detailed("cdp_command_rejected", message.as_str(), detail)
}

/// The error when sending a command failed.
pub fn command_send_error(method: &str, detail: &str) -> (out: ApiError)
    ensures
        out@ == detailed_spec("cdp_command_send_failed"@, "发送 CDP 命令 "@ + method@ + " 失败。"@, detail@),
{
    let mut message = copy_str("发送 CDP 命令 ");
    push_str(&mut message, method);
    push_str(&mut message, " 失败。");
    ApiError::detailed("cdp_command_send_failed", message.as_str(), detail)
}

/// The error when reading a command's answer failed.
pub fn command_read_error(method: &str, detail: &str) -> (out: ApiError)
    ensures
        out@ == detailed_spec("cdp_command_read_failed"@, "读取 CDP 命令 "@ + method@ + " 结果失败。"@, detail@),
{
    let mut message = copy_str("读取 CDP 命令 ");
    push_str(&mut message, method);
    push_str(&mut message, " 结果失败。");
    ApiError::detailed("cdp_command_read_failed", message.as_str(), detail)
}

/// The error when the connection closed before the answer came.
pub fn connection_closed_error(method: &str) -> (out: ApiError)
    ensures
        out@ == error_spec("cdp_connection_closed"@, "等待 CDP 命令 "@ + method@ + " 时连接已关闭。"@),
{
    let mut message = copy_str("等待 CDP 命令 ");
    push_str(&mut message, method);
    push_str(&mut message, " 时连接已关闭。");
    ApiError::new("cdp_connection_closed", message.as_str())
}

/// When injection keeps failing until the deadline: the last error, or a
/// timeout when there was none.
pub fn injection_timeout(last_error: Option<ApiError>) -> (out: ApiError)
    ensures
        match last_error {
            Some(e) => out == e,
            None => out@ == error_spec(CDP_INJECTION_TIMEOUT@, CDP_INJECTION_TIMEOUT_MSG@),
        },
{
    match last_error {
        Some(e) => e,
        None => ApiError::new(CDP_INJECTION_TIMEOUT, CDP_INJECTION_TIMEOUT_MSG),
    }
}

pub const CDP_TARGET_PARSE_FAILED: &'static str = "cdp_target_parse_failed";

pub const CDP_TARGET_PARSE_FAILED_MSG: &'static str = "解析 Codex 调试目标失败。";

/// What the HTTP client reports for a body that is not the expected JSON.
pub const BODY_DECODE_FAILED: &'static str = "error decoding response body";

/// The page to inject into, from the body of the debugger's target list: a
/// body that is no JSON array is a parse error; otherwise as
/// `select_debugger_url` chooses among its entries.
pub fn debugger_url_from_text(body: &str) -> (out: ApiResult<String>)
    ensures
        match json_parse(body@) {
            Ok(JsonSpec::Array(targets)) => match out {
                Ok(u) => debugger_url_spec(targets) == Ok::<Seq<char>, ErrorSpec>(u@),
                Err(e) => debugger_url_spec(targets) == Err::<Seq<char>, ErrorSpec>(e@),
            },
            _ => out matches Err(e) && e@ == detailed_spec(
                CDP_TARGET_PARSE_FAILED@,
                CDP_TARGET_PARSE_FAILED_MSG@,
                BODY_DECODE_FAILED@,
            ),
        },
{
    match parse_json(body) {
        Ok(JsonValue::Array(targets)) => {
            proof {
                lemma_array_view(targets);
                assert(targets_view(targets@) =~= items_view(targets@));
            }
            select_debugger_url(&targets)
        },
        _ => Err(
            ApiError::detailed(
                CDP_TARGET_PARSE_FAILED,
                CDP_TARGET_PARSE_FAILED_MSG,
                BODY_DECODE_FAILED,
            ),
        ),
    }
}

/// How a DevTools message text answers the command `id`, with the message's
/// `error` member when it rejects it; a text that is no JSON answers
/// nothing.
pub fn classify_reply_text(text: &str, id: u64) -> (out: (CommandReply, Option<JsonValue>))
    ensures
        match json_parse(text@) {
            Ok(message) => {
                &&& out.0 == (if as_u64_spec(get_spec(message, "id"@)) != Some(id) {
                    CommandReply::Other
                } else if get_spec(message, "error"@) is Some {
                    CommandReply::Rejected
                } else {
                    CommandReply::Done
                })
                &&& (match out.1 {
                    Some(e) => out.0 == CommandReply::Rejected && get_spec(message, "error"@)
                        == Some(e@),
                    None => out.0 != CommandReply::Rejected,
                })
            },
            Err(_) => out.0 == CommandReply::Other && out.1 is None,
        },
{
    match parse_json(text) {
        Ok(message) => {
            let reply = classify_reply(&message, id);
            if reply == CommandReply::Rejected {
                match get(&message, "error") {
                    Some(error) => (reply, Some(duplicate(error))),
                    None => (reply, None),
                }
            } else {
                (reply, None)
            }
        },
        Err(_) => (CommandReply::Other, None),
    }
}

} // verus!
