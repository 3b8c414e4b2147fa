use vstd::prelude::*;

verus! {

/// Where the editor is built: the identifier of its container element.
pub const CONTAINER_ID: &'static str = "monaco-editor-container";

/// The bootstrap script up to the editor's initial value.
pub const BOOTSTRAP_HEAD: &'static str = r#"
(function initMonaco() {
    function createEditor() {
        const container = document.getElementById('monaco-editor-container');
        if (!container) {
            console.error('Container not found!');
            return;
        }
        try {
            window.monaco_editor = monaco.editor.create(container, {
                value: "#;

/// The bootstrap script after the editor's initial value.
pub const BOOTSTRAP_TAIL: &'static str = r#",
                language: 'javascript',
                theme: 'vs-dark',
                automaticLayout: true,
                minimap: { enabled: false },
                scrollBeyondLastLine: false,
                fontSize: 14,
                wordWrap: 'on',
                lineNumbers: 'on',
                glyphMargin: false,
                folding: false,
                lineDecorationsWidth: 10,
                lineNumbersMinChars: 0
            });
            window.monaco_editor.onDidChangeModelContent(() => {
                console.log('Editor content changed to:', window.monaco_editor.getValue());
            });
            setTimeout(() => {
                if (window.monaco_editor) {
                    window.monaco_editor.layout();
                }
            }, 100);
        } catch (error) {
            console.error('Error creating Monaco editor:', error);
        }
    }
    if (typeof monaco !== 'undefined' && monaco.editor) {
        createEditor();
        return;
    }
    const loader = document.createElement('script');
    loader.src = 'https://cdn.jsdelivr.net/npm/monaco-editor@0.44.0/min/vs/loader.js';
    loader.onload = function() {
        require.config({
            paths: { 'vs': 'https://cdn.jsdelivr.net/npm/monaco-editor@0.44.0/min/vs' }
        });
        require(['vs/editor/editor.main'], function() {
            createEditor();
        });
    };
    loader.onerror = function() {
        console.error('Failed to load Monaco from CDN');
    };
    document.head.appendChild(loader);
})();
"#;

/// The readiness probe: it answers with one word of the status vocabulary.
pub const PROBE_SCRIPT: &'static str = r#"
if (typeof window.monaco_editor === 'undefined') return 'not_initialized';
if (!window.monaco_editor) return 'null';
if (typeof window.monaco_editor.getValue !== 'function') return 'no_getValue';
return 'ready';
"#;

/// Reads the editor's text; answers `null` where there is no editor or the
/// read fails.
pub const READ_SCRIPT: &'static str = r#"
try {
    if (!window.monaco_editor) {
        console.error('Editor missing in getValue');
        return null;
    }
    const content = window.monaco_editor.getValue();
    return (typeof content === 'string') ? content : null;
} catch (e) {
    console.error('Error getting content:', e);
    return null;
}
"#;

/// The push script up to the new text.
pub const PUSH_HEAD: &'static str = r#"
if (window.monaco_editor) {
    window.monaco_editor.setValue("#;

/// The push script after the new text: it answers whether the text went in.
pub const PUSH_TAIL: &'static str = r#");
    return true;
} else {
    console.warn('Editor not found');
    return false;
}
"#;

/// Disposes of the editor, if there is one, and clears its slot even where
/// disposal raises; never raises itself.
pub const DISPOSE_SCRIPT: &'static str = r#"
if (window.monaco_editor) {
    try {
        window.monaco_editor.dispose();
    } catch (e) {
        console.error('Dispose error', e);
    } finally {
        window.monaco_editor = null;
    }
}
"#;

/// The bootstrap script that builds the editor with `literal` as its value.
pub open spec fn bootstrap_text(literal: Seq<char>) -> Seq<char> {
    BOOTSTRAP_HEAD@ + literal + BOOTSTRAP_TAIL@
}

/// The script that puts the text of `literal` into the editor.
pub open spec fn push_text(literal: Seq<char>) -> Seq<char> {
    PUSH_HEAD@ + literal + PUSH_TAIL@
}

/// The bootstrap script for a given value literal.
pub fn bootstrap_script(literal: &str) -> (r: String)
    ensures
        r@ == bootstrap_text(literal@),
{
    let mut s = String::from_str(BOOTSTRAP_HEAD);
    s.append(literal);
    s.append(BOOTSTRAP_TAIL);
    s
}

/// The push script for a given value literal.
pub fn push_script(literal: &str) -> (r: String)
    ensures
        r@ == push_text(literal@),
{
    let mut s = String::from_str(PUSH_HEAD);
    s.append(literal);
    s.append(PUSH_TAIL);
    s
}

} // verus!
