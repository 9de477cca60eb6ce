use vstd::prelude::*;
use vstd::string::StringExecFns;

verus! {

/// A text buffer with the language tag used for syntax highlighting.
pub struct CodeEditor {
    pub language: String,
    pub code: String,
}

/// The language tag of a fresh editor.
pub open spec fn default_language() -> Seq<char> {
    "rs"@
}

/// The text of a fresh editor, shown before any file is opened.
pub open spec fn placeholder_code() -> Seq<char> {
    "// Select a file to view its contents\n"@
}

/// `after` is `before` with its buffer replaced by `content`.
pub open spec fn sets_content(before: CodeEditor, after: CodeEditor, content: Seq<char>) -> bool {
    &&& after.code@ == content
    &&& after.language == before.language
}

/// `got` is what reading the buffer of `editor` gives.
pub open spec fn reads_content(editor: CodeEditor, got: Seq<char>) -> bool {
    got == editor.code@
}

impl Default for CodeEditor {
    fn default() -> (res: Self)
        ensures
            res.language@ == default_language(),
            res.code@ == placeholder_code(),
            res.language@ == "rs"@,
            res.code@ == "// Select a file to view its contents\n"@,
    {
        CodeEditor {
            language: String::from_str("rs"),
            code: String::from_str("// Select a file to view its contents\n"),
        }
    }
}

impl CodeEditor {
    /// Replaces the buffer.
    pub fn set_content(&mut self, content: String)
        ensures
            sets_content(*old(self), *final(self), content@),
            final(self).code == content,
            final(self).language == old(self).language,
    {
        self.code = content;
    }

    /// A copy of the buffer.
    pub fn get_content(&self) -> (res: String)
        ensures
            reads_content(*self, res@),
            res == self.code,
    {
        self.code.clone()
    }
}

/// Reading the buffer right after replacing it gives back exactly what was
/// written, and the language tag is left as it was.
pub proof fn law_get_after_set(before: CodeEditor, after: CodeEditor, content: Seq<char>, got: Seq<char>)
    requires
        sets_content(before, after, content),
        reads_content(after, got),
    ensures
        got == content,
        after.language == before.language,
{
}

} // verus!
