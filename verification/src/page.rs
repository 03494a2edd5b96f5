//! The page a browser is given before it opens the live connection.

use vstd::prelude::*;
use vstd::string::*;

verus! {

/// The page up to the place where the session identifier goes.
pub const PAGE_HEAD: &'static str = r#"
    <!DOCTYPE html>
    <html>
    <head>
        <title>📁 Catport Live Share</title>
        <meta name="viewport" content="width=device-width, initial-scale=1">
        <style>
            body { 
                font-family: 'Courier New', monospace; 
                margin: 20px; 
                background: #1e1e1e;
                color: #d4d4d4;
            }
            h1 { color: #569cd6; }
            #content { 
                background: #2d2d30; 
                padding: 20px; 
                border-radius: 8px;
                white-space: pre-wrap;
                border: 1px solid #3e3e42;
                font-size: 14px;
                line-height: 1.4;
                overflow-x: auto;
            }
            .status {
                padding: 10px;
                border-radius: 5px;
                margin: 10px 0;
            }
            .connected { background: #1e3a1e; color: #4ec94e; }
            .disconnected { background: #3a1e1e; color: #f44747; }
        </style>
    </head>
    <body>
        <h1>🐾 Catport Live Share</h1>
        <div id="status" class="status disconnected">🔌 Connecting...</div>
        <pre id="content">Loading...</pre>
        
        <script>
            // ✅ Use dynamic WebSocket URL based on current host
            const protocol = window.location.protocol === 'https:' ? 'wss:' : 'ws:';
            const wsUrl = `${protocol}//${window.location.host}/ws/"#;

/// The page after the session identifier.
pub const PAGE_TAIL: &'static str = r#"`;
            
            console.log('Connecting to:', wsUrl);
            const ws = new WebSocket(wsUrl);
            
            const statusEl = document.getElementById('status');
            const contentEl = document.getElementById('content');
            
            ws.onopen = function() {
                console.log('✅ Connected to live share');
                statusEl.textContent = '🟢 Connected - Live updates enabled';
                statusEl.className = 'status connected';
            };
            
            ws.onmessage = function(event) {
                try {
                    const data = JSON.parse(event.data);
                    if (data.type === 'file_content' || data.type === 'file_update') {
                        contentEl.textContent = data.content;
                        if (data.type === 'file_update') {
                            // Brief highlight effect on updates
                            contentEl.style.background = '#3a3a1e';
                            setTimeout(() => {
                                contentEl.style.background = '#2d2d30';
                            }, 200);
                        }
                    }
                } catch (e) {
                    console.error('Error parsing message:', e);
                }
            };
            
            ws.onerror = function(error) {
                console.error('❌ WebSocket error:', error);
                statusEl.textContent = '🔴 Connection error';
                statusEl.className = 'status disconnected';
            };
            
            ws.onclose = function() {
                console.log('🔌 Connection closed');
                statusEl.textContent = '🔴 Disconnected';
                statusEl.className = 'status disconnected';
            };
        </script>
    </body>
    </html>
    "#;

/// The page for the session `identifier`: markup and a script that opens
/// the live connection for this identifier on the host the page came from.
pub open spec fn page_text(identifier: Seq<char>) -> Seq<char> {
    PAGE_HEAD@ + identifier + PAGE_TAIL@
}

/// Builds the page for the session `identifier`.
pub fn bootstrap_page(identifier: &str) -> (page: String)
    ensures
        page@ == page_text(identifier@),
{
    let mut page = PAGE_HEAD.to_owned();
    page.append(identifier);
    page.append(PAGE_TAIL);
    page
}

} // verus!
