//! The style sheet and the script of the pages.

use vstd::prelude::*;

verus! {

/// The style sheet of every page.
pub const MANAGER_STYLE: &'static str = r#"
:root{--bg:#f8f1e6;--bg-2:#e7f3ee;--bg-3:#fdf9f3;--card:#fffdf8;--card-soft:rgba(255,252,246,.88);--card-strong:rgba(255,255,255,.96);--ink:#1d2731;--muted:#5e6773;--line:#dbd4c8;--accent:#0f7a6d;--accent-deep:#0c6258;--accent-soft:#d8efe8;--info:#e7f1fb;--warn:#fff1dc;--danger:#fde7e3;--shadow:0 26px 60px rgba(22,33,43,.12)}
*{box-sizing:border-box}
html{scroll-behavior:smooth}
body{margin:0;min-height:100vh;color:var(--ink);font-family:Aptos,"Segoe UI",Candara,sans-serif;background:radial-gradient(circle at top left,rgba(255,232,200,.96),transparent 28%),radial-gradient(circle at 92% 12%,rgba(210,236,227,.92),transparent 32%),radial-gradient(circle at 50% 100%,rgba(255,255,255,.9),transparent 38%),linear-gradient(180deg,var(--bg) 0%,var(--bg-2) 46%,var(--bg-3) 100%)}
a{color:var(--accent);text-decoration:none}
a:hover{text-decoration:underline}
.page{max-width:1360px;margin:0 auto;padding:34px 20px 72px}
.hero,.layout,.login-layout,.stats,.list,.grid,.meta{display:grid;gap:20px}
.hero{grid-template-columns:minmax(0,1.18fr) minmax(320px,.82fr);align-items:stretch}
.layout{grid-template-columns:minmax(0,1.12fr) minmax(320px,.88fr);margin:28px 0}
.login-layout{grid-template-columns:minmax(0,1.08fr) minmax(340px,.92fr);align-items:center;min-height:100vh}
.stats{grid-template-columns:repeat(2,minmax(0,1fr))}
.list{grid-template-columns:repeat(auto-fit,minmax(340px,1fr))}
.grid.two{grid-template-columns:repeat(2,minmax(0,1fr))}
.grid.three{grid-template-columns:repeat(3,minmax(0,1fr))}
.meta{grid-template-columns:repeat(2,minmax(0,1fr))}
.topbar,.section-head,.item-top,.form-actions{display:flex;justify-content:space-between;align-items:flex-start;gap:16px}
.topbar{margin-bottom:28px}
.brand{max-width:760px}
.actions,.badges,.action-group{display:flex;gap:10px;flex-wrap:wrap;align-items:center}
.card{position:relative;background:linear-gradient(180deg,rgba(255,255,255,.86),rgba(255,249,242,.9));border:1px solid rgba(255,255,255,.74);border-radius:30px;padding:24px;box-shadow:var(--shadow);backdrop-filter:blur(12px)}
.card.strong{background:linear-gradient(180deg,var(--card-strong),var(--card))}
.card h1,.card h2,.card h3,.brand h1{margin:0;font-family:Cambria,Georgia,"Times New Roman",serif;letter-spacing:-.025em}
.card h2,.card h3{line-height:1.08}
.brand h1{font-size:clamp(2.3rem,4vw,3.7rem);line-height:1;max-width:12ch}
.eyebrow{display:inline-block;margin-bottom:10px;font-size:.76rem;font-weight:800;letter-spacing:.22em;text-transform:uppercase;color:var(--accent)}
.lead{font-size:1.02rem;color:var(--muted);line-height:1.68;max-width:62ch}
.muted,.field small,.note small,.action-copy{color:var(--muted);line-height:1.56}
.section-head .muted{max-width:54ch}
.item-top{padding-bottom:14px;border-bottom:1px solid rgba(29,39,49,.08)}
.item-top>div:first-child{flex:1 1 auto}
.pill{display:inline-flex;align-items:center;gap:6px;padding:8px 12px;border-radius:999px;font-size:.8rem;font-weight:800;letter-spacing:.01em}
.ok{background:var(--accent-soft);color:var(--accent-deep)}
.info{background:var(--info);color:#1b5476}
.warn{background:var(--warn);color:#8a4f06}
.muted-pill{background:rgba(29,39,49,.08);color:#4c5663}
.danger{background:var(--danger);color:#7d2d25}
.stat{border:1px solid rgba(29,39,49,.08);border-radius:24px;padding:18px;background:linear-gradient(180deg,rgba(255,255,255,.98),rgba(247,241,234,.94))}
.stat .value{font-family:Cambria,Georgia,"Times New Roman",serif;font-size:2.2rem;margin:10px 0 6px}
.field{display:flex;flex-direction:column;gap:8px}
.field span{font-weight:800}
.field input,.field select,.field textarea{width:100%;padding:13px 15px;border-radius:16px;border:1px solid var(--line);background:rgba(255,255,255,.95);font:inherit;color:var(--ink);box-shadow:inset 0 1px 0 rgba(255,255,255,.6)}
.field textarea{min-height:132px;resize:vertical}
.field input:focus,.field select:focus,.field textarea:focus{outline:none;border-color:rgba(15,122,109,.5);box-shadow:0 0 0 4px rgba(15,122,109,.12)}
.toggle{border:1px solid var(--line);border-radius:20px;padding:15px 16px;background:rgba(248,242,235,.94)}
.toggle label{display:flex;align-items:center;gap:10px;font-weight:800;margin-bottom:6px}
.toggle input{width:18px;height:18px;accent-color:var(--accent)}
.btn,.btn-secondary,.btn-danger{display:inline-flex;align-items:center;justify-content:center;gap:8px;padding:12px 18px;border-radius:999px;border:0;cursor:pointer;font:inherit;font-weight:800;transition:transform .16s ease,box-shadow .16s ease,background .16s ease}
.btn:hover,.btn-secondary:hover,.btn-danger:hover{transform:translateY(-1px);text-decoration:none}
.btn{background:linear-gradient(135deg,var(--accent),#21a08f);color:#fff;box-shadow:0 14px 28px rgba(15,122,109,.22)}
.btn-secondary{background:rgba(255,255,255,.84);border:1px solid rgba(29,39,49,.12);color:var(--ink)}
.btn-danger{background:linear-gradient(135deg,#c95a4d,#a93f32);color:#fff;box-shadow:0 12px 26px rgba(169,63,50,.2)}
.meta-card{border:1px solid rgba(29,39,49,.08);border-radius:20px;padding:14px 15px;background:rgba(255,255,255,.76)}
.meta-card strong{display:block;margin-bottom:7px;font-size:.76rem;letter-spacing:.12em;text-transform:uppercase;color:var(--muted)}
.note{border-radius:20px;padding:15px 16px;line-height:1.56;border:1px solid transparent}
.note.info{background:#edf6ff;border-color:#d8e9fb}
.note.success{background:var(--accent-soft);border-color:#c6e2d8}
.note.error{background:var(--danger);border-color:#f2c9c3}
.table-wrap{overflow:auto;border:1px solid rgba(29,39,49,.08);border-radius:22px;padding:0 18px;background:rgba(255,255,255,.56)}
.table{width:100%;min-width:640px;border-collapse:collapse;font-size:.95rem}
.table th{padding:16px 0 12px;text-align:left;font-size:.8rem;letter-spacing:.14em;text-transform:uppercase;color:var(--muted)}
.table td{padding:14px 0;border-top:1px solid rgba(29,39,49,.08);vertical-align:top}
.token{display:flex;gap:10px;align-items:center;flex-wrap:wrap;min-width:250px}
code{display:inline-block;padding:4px 8px;border-radius:10px;background:rgba(29,39,49,.06);font-size:.93em;overflow-wrap:anywhere}
.empty{border:1px dashed rgba(29,39,49,.18);border-radius:22px;padding:20px;background:rgba(255,255,255,.46);color:var(--muted)}
.steps{display:grid;gap:10px;padding-left:18px;margin:16px 0 0;color:var(--muted)}
.error-block{white-space:pre-wrap;overflow:auto;padding:16px;border-radius:18px;background:rgba(22,28,38,.94);color:#f8f7f3}
.form-actions{margin-top:18px;padding-top:18px;border-top:1px solid rgba(29,39,49,.08);align-items:center;flex-wrap:wrap}
.action-copy{margin:0;max-width:40ch}
.danger-inline{margin:0}
@media (max-width:1120px){.hero,.layout,.login-layout{grid-template-columns:1fr}}
@media (max-width:860px){.stats,.grid.two,.grid.three,.meta,.list{grid-template-columns:1fr}.page{padding:24px 16px 54px}}
@media (max-width:640px){.page{padding:18px 12px 40px}.card{padding:18px}.topbar,.section-head,.item-top,.form-actions{flex-direction:column}.action-group{width:100%}.action-group .btn,.action-group .btn-secondary,.action-group .btn-danger{flex:1 1 100%}.brand h1{max-width:none}.table-wrap{padding:0 12px}}
.live-grid{
    display:grid;
    grid-template-columns:repeat(3,1fr);
    gap:18px;
    margin-bottom:28px;
}

.live-card{
    padding:24px;
    border-radius:24px;
    backdrop-filter:blur(18px);
    border:1px solid rgba(255,255,255,0.08);
    background:rgba(255,255,255,0.04);
}

.live-card span{
    color:#94a3b8;
    font-size:14px;
}

.live-card h2{
    margin-top:10px;
    font-size:42px;
}

.live-card.online{
    box-shadow:0 0 40px rgba(34,197,94,0.18);
}

.live-card.active{
    box-shadow:0 0 40px rgba(59,130,246,0.18);
}

.live-card.offline{
    box-shadow:0 0 40px rgba(239,68,68,0.18);
}
.alerts-panel{
    margin-top:20px;
    display:grid;
    gap:12px;
}
.alert-row{
    display:flex;
    align-items:flex-start;
    gap:10px;
    padding:14px 16px;
    border-radius:18px;
    background:rgba(201,90,77,0.10);
    border:1px solid rgba(201,90,77,0.18);
    color:#6f2a23;
    font-size:14px;
    line-height:1.5;
}
.alert-icon{
    font-weight:900;
    color:#b73d31;
}
"#;

/// The script of every page.
pub const MANAGER_SCRIPT: &'static str = r#"
function escapeClientHtml(value) {
  return String(value)
    .replaceAll("&", "&amp;")
    .replaceAll("<", "&lt;")
    .replaceAll(">", "&gt;")
    .replaceAll('"', "&quot;")
    .replaceAll("'", "&#39;");
}

document.addEventListener("click", async (event) => {
  const commandButton = event.target.closest("[data-copy-command]");
  if (commandButton) {
    const kind = commandButton.dataset.kind || "client";
    const token = commandButton.dataset.token || "";
    const label = commandButton.dataset.label || (kind === "server" ? "ntz-server" : "ntz-client");
    const isWindows = navigator.platform.toLowerCase().includes("win");
    const exe = kind === "server"
      ? "sudo ./target/debug/ntz-proto"
      : isWindows
      ? ".\\target\\debug\\ntz-proto.exe"
      : "sudo ./target/debug/ntz-proto";
    const mode = kind === "server" ? "server" : "client";
    const nameFlag = kind === "server" ? "--node-name" : "--device-name";
    const quote = (value) => `"${String(value).replaceAll('"', '\\"')}"`;
    const command = `${exe} ${mode} --management-url ${quote(window.location.origin)} --enrollment-token ${quote(token)} ${nameFlag} ${quote(label)} --verbose`;
    const original = commandButton.textContent;
    try {
      await navigator.clipboard.writeText(command);
      commandButton.textContent = "Command copied";
    } catch (_err) {
      commandButton.textContent = "Copy failed";
    }
    setTimeout(() => commandButton.textContent = original, 1600);
    return;
  }

  const button = event.target.closest("[data-copy]");
  if (!button) return;
  const original = button.textContent;
  try {
    await navigator.clipboard.writeText(button.dataset.copy || "");
    button.textContent = "Copied";
  } catch (_err) {
    button.textContent = "Copy failed";
  }
  setTimeout(() => button.textContent = original, 1400);
});

document.addEventListener("submit", (event) => {
  const form = event.target.closest("form[data-confirm]");
  if (!form) return;
  const message = form.getAttribute("data-confirm") || "Are you sure?";
  if (!window.confirm(message)) {
    event.preventDefault();
  }
});


async function refreshLogs() {

    try {

        const response =
            await fetch("/api/logs");

        const logs =
            await response.json();

        const container =
            document.getElementById(
                "logs-container"
            );

        if (!container) return;

        if (!logs.length) {

            container.innerHTML =
                "No logs yet.";

            return;
        }

        container.innerHTML =
            logs
                .map(log =>
                    `<div style="margin-bottom:8px;">${escapeClientHtml(log)}</div>`
                )
                .join("");

        container.scrollTop =
            container.scrollHeight;

    } catch (err) {

        console.error(err);
    }
}

setInterval(
    refreshLogs,
    2000
);

refreshLogs();

async function refreshAlerts() {

    try {

        const response =
            await fetch("/api/alerts");

        const alerts =
            await response.json();

        const panel =
            document.getElementById(
                "alerts-panel"
            );

        if (!panel) return;

        if (!alerts.length) {

            panel.innerHTML =
                `<div class="empty">No alerts.</div>`;

            return;
        }

        panel.innerHTML =
            alerts.map(alert => `
                <div class="alert-row">
                    <span class="alert-icon">&#9888;</span>
                    <span>${escapeClientHtml(alert)}</span>
                </div>
            `).join("");

    } catch (err) {

        console.error(err);
    }
}

setInterval(
    refreshAlerts,
    5000
);

refreshAlerts();

"#;

} // verus!
