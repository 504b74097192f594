use vstd::prelude::*;

use crate::reply::{is_text_reply, Reply, STATUS_OK};

verus! {

/// The configuration page: a form that posts `name` and `value` to
/// `/dashboard/save`, and a script that polls `/api/logs` every two seconds.
pub const DASHBOARD_HTML: &'static str = r#"
    <!DOCTYPE html>
    <html>
    <head>
        <style>
            body { font-family: Arial, sans-serif; padding: 20px; }
            .log-entry { border-bottom: 1px solid #ddd; padding: 10px; margin: 10px 0; }
            .log-entry.error { background: #ffdddd; }
            .log-entry.info { background: #ddffdd; }
        </style>
    </head>
    <body>
        <h1>System Configuration & Logs</h1>
        <div id="logs"></div>
        <form action="/dashboard/save" method="post" style="margin-top: 20px;">
            <label>Variable Name: <input type="text" name="name"></label><br>
            <label>Value: <input type="text" name="value"></label><br>
            <input type="submit" value="Save">
        </form>
        <script>
            function fetchLogs() {
                fetch('/api/logs')
                    .then(response => response.json())
                    .then(data => {
                        const logContainer = document.getElementById('logs');
                        logContainer.innerHTML = '';
                        data.forEach(entry => {
                            const entryDiv = document.createElement('div');
                            entryDiv.className = `log-entry ${entry.level.toLowerCase()}`;
                            entryDiv.textContent = `[${entry.timestamp}] ${entry.message}`;
                            logContainer.appendChild(entryDiv);
                        });
                    });
            }
            setInterval(fetchLogs, 2000);
            fetchLogs();
        </script>
    </body>
    </html>
    "#;

/// `GET /dashboard`: the configuration page, always.
pub fn dashboard() -> (r: Reply)
    ensures
        is_text_reply(r, STATUS_OK, DASHBOARD_HTML@),
{
    Reply::text(STATUS_OK, String::from_str(DASHBOARD_HTML))
}

} // verus!
