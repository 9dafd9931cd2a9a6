//! G-code loading widget: a loaded file, a queue of files and the lines sent.

use vstd::prelude::*;
use std::collections::VecDeque;
use crate::text::{
    lines, join, views, contains, chars_of, string_of, split_lines, joined, has, extend,
    extend_str, decimal, decimal_of, digit_char, digit_of,
};
use crate::jobs::{code_lines, code_lines_of};
use crate::stamps::now_rfc3339;

verus! {

/// A G-code file.
#[derive(Debug)]
pub struct GcodeFile {
    pub name: String,
    pub path: String,
    /// Size of the content in bytes.
    pub size: usize,
    /// Number of lines of the content.
    pub lines: usize,
    pub content: String,
}

impl Clone for GcodeFile {
    fn clone(&self) -> (r: GcodeFile)
        ensures
            r == *self,
    {
        GcodeFile {
            name: self.name.clone(),
            path: self.path.clone(),
            size: self.size,
            lines: self.lines,
            content: self.content.clone(),
        }
    }
}

/// Whether a text holds a motion command: `G0`, `G1`, `G2` or `G3`.
pub open spec fn has_motion(s: Seq<char>) -> bool {
    contains(s, "G0"@) || contains(s, "G1"@) || contains(s, "G2"@) || contains(s, "G3"@)
}

/// A text without its blank lines and comment lines.
pub open spec fn clean_gcode(s: Seq<char>) -> Seq<char> {
    join(code_lines(s), seq!['\n'])
}

/// Tenths of a percent that `sent` is of `total`, rounded half up; 0 when
/// `total` is 0.
pub open spec fn progress_tenths(sent: usize, total: usize) -> nat {
    if total == 0 {
        0
    } else {
        ((sent * 2000 + total) / (2 * total)) as nat
    }
}

/// The status text of a loaded file.
pub open spec fn loading_text(name: Seq<char>, sent: usize, total: usize) -> Seq<char> {
    let t = progress_tenths(sent, total);
    name + " - "@ + decimal(t / 10) + seq!['.', digit_char((t % 10) as int)] + "% sent ("@
        + decimal(sent as nat) + seq!['/'] + decimal(total as nat) + seq![')']
}

impl GcodeFile {
    /// A file of the given name, path and content.
    pub fn new(name: String, path: String, content: String) -> (r: GcodeFile)
        ensures
            r.name == name,
            r.path == path,
            r.content == content,
            r.lines == lines(content@).len(),
            r.size == vstd::utf8::encode_utf8(content@).len() as usize,
    {
        let text = chars_of(content.as_str());
        let all = split_lines(&text);
        assert(views(all@).len() == all@.len());
        let size = content.as_str().len();
        GcodeFile { name, path, size, lines: all.len(), content }
    }

    /// Checks that the file holds G-code: it must not be empty and must hold
    /// a motion command.
    pub fn validate(&self) -> (r: Result<(), String>)
        ensures
            self.content@.len() == 0 ==> r is Err && r->Err_0@ == "Empty G-code file"@,
            self.content@.len() > 0 && !has_motion(self.content@) ==> r is Err && r->Err_0@
                == "No G-code commands found"@,
            self.content@.len() > 0 && has_motion(self.content@) ==> r is Ok,
    {
        if self.content.as_str().is_empty() {
            return Err("Empty G-code file".to_owned());
        }
        let text = chars_of(self.content.as_str());
        let has_g_code = has(&text, "G0") || has(&text, "G1") || has(&text, "G2") || has(
            &text,
            "G3",
        );
        if !has_g_code {
            return Err("No G-code commands found".to_owned());
        }
        Ok(())
    }

    /// The content without blank lines and comment lines.
    pub fn get_clean_gcode(&self) -> (r: String)
        ensures
            r@ == clean_gcode(self.content@),
    {
        let kept = code_lines_of(self.content.as_str());
        let mut feed: Vec<char> = Vec::new();
        feed.push('\n');
        assert(feed@ == seq!['\n']);
        let text = joined(&kept, &feed);
        string_of(&text)
    }
}

/// State of the G-code loading widget.
#[derive(Debug)]
pub struct GcodeLoading {
    pub loaded_file: Option<GcodeFile>,
    pub queue: VecDeque<GcodeFile>,
    /// Number of lines of the loaded file that were handed out.
    pub sent_lines: usize,
    pub file_loaded_at: Option<String>,
}

impl GcodeLoading {
    /// A widget without a file.
    pub fn new() -> (r: GcodeLoading)
        ensures
            r.loaded_file is None,
            r.queue@ == Seq::<GcodeFile>::empty(),
            r.sent_lines == 0,
            r.file_loaded_at is None,
    {
        GcodeLoading {
            loaded_file: None,
            queue: VecDeque::new(),
            sent_lines: 0,
            file_loaded_at: None,
        }
    }

    /// Loads a file now, if it is valid.
    pub fn load_file(&mut self, file: GcodeFile) -> (r: Result<(), String>)
        ensures
            final(self).queue == old(self).queue,
            file.content@.len() > 0 && has_motion(file.content@) ==> r is Ok && final(self).loaded_file == Some(file) && final(self).sent_lines == 0 && final(self).file_loaded_at is Some,
            !(file.content@.len() > 0 && has_motion(file.content@)) ==> r is Err && *final(self)
                == *old(self),
            file.content@.len() == 0 ==> r is Err && r->Err_0@ == "Empty G-code file"@,
            file.content@.len() > 0 && !has_motion(file.content@) ==> r is Err && r->Err_0@
                == "No G-code commands found"@,
    {
        match file.validate() {
            Ok(_) => {
                self.load_valid_file(file, now_rfc3339());
                Ok(())
            },
            Err(e) => Err(e),
        }
    }

    /// Makes `file` the loaded file, loaded at the given time, with nothing
    /// sent yet.
    pub fn load_valid_file(&mut self, file: GcodeFile, now: String)
        ensures
            *final(self) == (GcodeLoading {
                loaded_file: Some(file),
                sent_lines: 0,
                file_loaded_at: Some(now),
                ..*old(self)
            }),
    {
        self.loaded_file = Some(file);
        self.sent_lines = 0;
        self.file_loaded_at = Some(now);
    }

    /// Adds a file to the end of the queue.
    pub fn queue_file(&mut self, file: GcodeFile)
        ensures
            *final(self) == (GcodeLoading { queue: final(self).queue, ..*old(self) }),
            final(self).queue@ == old(self).queue@.push(file),
    {
        self.queue.push_back(file);
    }

    /// Takes the first file off the queue.
    pub fn get_next_queued(&mut self) -> (r: Option<GcodeFile>)
        ensures
            *final(self) == (GcodeLoading { queue: final(self).queue, ..*old(self) }),
            old(self).queue@.len() == 0 ==> r is None && final(self).queue@ == old(self).queue@,
            old(self).queue@.len() > 0 ==> r == Some(old(self).queue@[0]) && final(self).queue@
                == old(self).queue@.subrange(1, old(self).queue@.len() as int),
    {
        self.queue.pop_front()
    }

    /// Hands out the next line of the clean content of the loaded file and
    /// counts it as sent.
    pub fn get_next_line(&mut self) -> (r: Option<String>)
        ensures
            final(self).loaded_file == old(self).loaded_file,
            final(self).queue == old(self).queue,
            final(self).file_loaded_at == old(self).file_loaded_at,
            match old(self).loaded_file {
                Some(file) => {
                    let all = lines(clean_gcode(file.content@));
                    if old(self).sent_lines < all.len() {
                        r is Some && r->0@ == all[old(self).sent_lines as int] && final(self).sent_lines == old(self).sent_lines + 1
                    } else {
                        r is None && final(self).sent_lines == old(self).sent_lines
                    }
                },
                None => r is None && final(self).sent_lines == old(self).sent_lines,
            },
    {
        match &self.loaded_file {
            Some(file) => {
                let clean = file.get_clean_gcode();
                let text = chars_of(clean.as_str());
                let all = split_lines(&text);
                assert(views(all@).len() == all@.len());
                if self.sent_lines < all.len() {
                    assert(views(all@)[self.sent_lines as int] == all@[self.sent_lines as int]@);
                    let line = string_of(&all[self.sent_lines]);
                    self.sent_lines = self.sent_lines + 1;
                    Some(line)
                } else {
                    None
                }
            },
            None => None,
        }
    }

    /// The progress in tenths of a percent of the lines of the loaded file.
    pub fn get_progress_tenths(&self) -> (r: u128)
        ensures
            r == match self.loaded_file {
                Some(file) => progress_tenths(self.sent_lines, file.lines),
                None => 0,
            },
    {
        match &self.loaded_file {
            Some(file) => {
                if file.lines > 0 {
                    (self.sent_lines as u128 * 2000 + file.lines as u128) / (2 * file.lines as u128)
                } else {
                    0
                }
            },
            None => 0,
        }
    }

    /// Starts over: nothing counts as sent.
    pub fn reset(&mut self)
        ensures
            *final(self) == (GcodeLoading { sent_lines: 0, ..*old(self) }),
    {
        self.sent_lines = 0;
    }

    /// Forgets the loaded file.
    pub fn clear(&mut self)
        ensures
            *final(self) == (GcodeLoading {
                loaded_file: None,
                sent_lines: 0,
                file_loaded_at: None,
                ..*old(self)
            }),
    {
        self.loaded_file = None;
        self.sent_lines = 0;
        self.file_loaded_at = None;
    }

    /// The number of queued files.
    pub fn queue_length(&self) -> (r: usize)
        ensures
            r == self.queue@.len(),
    {
        self.queue.len()
    }

    /// The state of loading as text.
    pub fn get_status(&self) -> (r: String)
        ensures
            r@ == match self.loaded_file {
                Some(file) => loading_text(file.name@, self.sent_lines, file.lines),
                None => "No file loaded"@,
            },
    {
        match &self.loaded_file {
            Some(file) => {
                let t = self.get_progress_tenths();
                let mut v = chars_of(file.name.as_str());
                extend_str(&mut v, " - ");
                let whole = decimal_of(t / 10);
                extend(&mut v, &whole);
                v.push('.');
                v.push(digit_of((t % 10) as u8));
                extend_str(&mut v, "% sent (");
                let sent = decimal_of(self.sent_lines as u128);
                extend(&mut v, &sent);
                v.push('/');
                let total = decimal_of(file.lines as u128);
                extend(&mut v, &total);
                v.push(')');
                string_of(&v)
            },
            None => "No file loaded".to_owned(),
        }
    }
}

impl Default for GcodeLoading {
    fn default() -> (r: GcodeLoading)
        ensures
            r.loaded_file is None,
            r.queue@ == Seq::<GcodeFile>::empty(),
            r.sent_lines == 0,
            r.file_loaded_at is None,
    {
        GcodeLoading::new()
    }
}

} // verus!
