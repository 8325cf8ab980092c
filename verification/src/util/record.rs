//! The source information of one log message.

use crate::util::level::Level;
use crate::util::pool::string_clear;
use crate::util::text::push_str;
use vstd::prelude::*;
use vstd::string::StrSliceExecFns;

verus! {

/// A log message with its source information, before formatting.
///
/// The target, module path, file and message text are kept one after another in a single
/// string; `offsets` holds where each of the first three ends.
pub struct Record {
    data: String,
    logger_name: String,
    offsets: [usize; 3],
    line: Option<u32>,
    time_stamp: u128,
    level: Level,
    process_id: u32,
    thread_id: String,
}

/// An optional text that is absent when empty.
pub open spec fn non_empty(s: Option<Seq<char>>) -> Option<Seq<char>> {
    match s {
        Some(t) => if t.len() > 0 { Some(t) } else { None },
        None => None,
    }
}

impl Record {
    #[verifier::type_invariant]
    spec fn offsets_in_order(&self) -> bool {
        self.offsets[0] <= self.offsets[1] <= self.offsets[2] <= self.data@.len()
    }

    pub closed spec fn spec_target(&self) -> Seq<char> {
        self.data@.subrange(0, self.offsets[0] as int)
    }

    pub closed spec fn spec_module(&self) -> Option<Seq<char>> {
        if self.offsets[0] == self.offsets[1] {
            None
        } else {
            Some(self.data@.subrange(self.offsets[0] as int, self.offsets[1] as int))
        }
    }

    pub closed spec fn spec_file(&self) -> Option<Seq<char>> {
        if self.offsets[1] == self.offsets[2] {
            None
        } else {
            Some(self.data@.subrange(self.offsets[1] as int, self.offsets[2] as int))
        }
    }

    pub closed spec fn spec_log_detail(&self) -> Seq<char> {
        self.data@.subrange(self.offsets[2] as int, self.data@.len() as int)
    }

    pub closed spec fn spec_logger_name(&self) -> Seq<char> {
        self.logger_name@
    }

    pub closed spec fn spec_line(&self) -> Option<u32> {
        self.line
    }

    pub closed spec fn spec_time_stamp(&self) -> u128 {
        self.time_stamp
    }

    pub closed spec fn spec_level(&self) -> Level {
        self.level
    }

    pub closed spec fn spec_process_id(&self) -> u32 {
        self.process_id
    }

    pub closed spec fn spec_thread_id(&self) -> Seq<char> {
        self.thread_id@
    }

    /// Builds a record from the parts of a log message: the target, module path, file and
    /// message text are joined into one string. `time_stamp` is in nanoseconds since the Unix
    /// epoch; `thread_id` is the thread's identifier as it is to be printed. The record's text
    /// and logger name are written into `data_buf` and `name_buf`, string buffers taken from a
    /// pool for reuse; they are cleared first.
    pub fn new(
        target: &str,
        module: Option<&str>,
        file: Option<&str>,
        message: &str,
        logger_name: &str,
        line: Option<u32>,
        time_stamp: u128,
        level: Level,
        process_id: u32,
        thread_id: &str,
        data_buf: String,
        name_buf: String,
    ) -> (r: Self)
        requires
            target@.len() + (match module { Some(p) => p@.len(), None => 0 }) + (match file {
                Some(f) => f@.len(),
                None => 0,
            }) + message@.len() <= usize::MAX,
        ensures
            r.spec_target() == target@,
            r.spec_module() == non_empty(
                match module {
                    Some(p) => Some(p@),
                    None => None,
                },
            ),
            r.spec_file() == non_empty(
                match file {
                    Some(f) => Some(f@),
                    None => None,
                },
            ),
            r.spec_log_detail() == message@,
            r.spec_logger_name() == logger_name@,
            r.spec_line() == line,
            r.spec_time_stamp() == time_stamp,
            r.spec_level() == level,
            r.spec_process_id() == process_id,
            r.spec_thread_id() == thread_id@,
    {
        let (offsets, data) = Self::splice(target, module, file, message, data_buf);
        let mut name = name_buf;
        string_clear(&mut name);
        push_str(&mut name, logger_name);
        let mut tid = String::new();
        push_str(&mut tid, thread_id);
        proof {
            let p = match module { Some(p) => p@, None => Seq::<char>::empty() };
            let f = match file { Some(f) => f@, None => Seq::<char>::empty() };
            assert(data@.len() == target@.len() + p.len() + f.len() + message@.len());
            assert(data@.subrange(0, offsets[0] as int) =~= target@);
            assert(data@.subrange(offsets[2] as int, data@.len() as int) =~= message@);
            assert(data@.subrange(offsets[0] as int, offsets[1] as int) =~= p);
            assert(data@.subrange(offsets[1] as int, offsets[2] as int) =~= f);
            assert(offsets[0] <= offsets[1]);
            assert(offsets[1] <= offsets[2]);
            assert(offsets[2] <= data@.len());
        }
        Record {
            data,
            logger_name: name,
            offsets,
            line,
            time_stamp,
            level,
            process_id,
            thread_id: tid,
        }
    }

    /// Joins the target, module path, file and message; gives where each of the first three ends.
    fn splice(target: &str, module: Option<&str>, file: Option<&str>, message: &str, buf: String) -> (r: (
        [usize; 3],
        String,
    ))
        requires
            target@.len() + (match module { Some(p) => p@.len(), None => 0 }) + (match file {
                Some(f) => f@.len(),
                None => 0,
            }) + message@.len() <= usize::MAX,
        ensures
            ({
                let (o, d) = r;
                let p = match module { Some(p) => p@, None => Seq::empty() };
                let f = match file { Some(f) => f@, None => Seq::empty() };
                &&& d@ == target@ + p + f + message@
                &&& o[0] == target@.len()
                &&& o[1] == target@.len() + p.len()
                &&& o[2] == target@.len() + p.len() + f.len()
            }),
    {
        let mut data = buf;
        string_clear(&mut data);
        push_str(&mut data, target);
        let o0 = target.unicode_len();
        let mut o1 = o0;
        if let Some(path) = module {
            push_str(&mut data, path);
            o1 = o0 + path.unicode_len();
        }
        let mut o2 = o1;
        if let Some(f) = file {
            push_str(&mut data, f);
            o2 = o1 + f.unicode_len();
        }
        push_str(&mut data, message);
        proof {
            let p = match module { Some(p) => p@, None => Seq::<char>::empty() };
            let f = match file { Some(f) => f@, None => Seq::<char>::empty() };
            assert(data@ =~= target@ + p + f + message@);
        }
        ([o0, o1, o2], data)
    }

    /// The message text.
    pub fn log_detail(&self) -> (s: &str)
        ensures
            s@ == self.spec_log_detail(),
    {
        proof {
            use_type_invariant(self);
        }
        let d = self.data.as_str();
        d.substring_char(self.offsets[2], d.unicode_len())
    }

    /// The name of the logger that made the record.
    pub fn logger_name(&self) -> (s: &str)
        ensures
            s@ == self.spec_logger_name(),
    {
        self.logger_name.as_str()
    }

    /// The source file, if known.
    pub fn file(&self) -> (s: Option<&str>)
        ensures
            match s {
                Some(t) => self.spec_file() == Some(t@),
                None => self.spec_file() == None::<Seq<char>>,
            },
    {
        proof {
            use_type_invariant(self);
        }
        if self.offsets[1] == self.offsets[2] {
            None
        } else {
            Some(self.data.as_str().substring_char(self.offsets[1], self.offsets[2]))
        }
    }

    /// The source line, if known.
    pub fn line(&self) -> (l: Option<u32>)
        ensures
            l == self.spec_line(),
    {
        self.line
    }

    /// The module path, if known.
    pub fn source_module(&self) -> (s: Option<&str>)
        ensures
            match s {
                Some(t) => self.spec_module() == Some(t@),
                None => self.spec_module() == None::<Seq<char>>,
            },
    {
        proof {
            use_type_invariant(self);
        }
        if self.offsets[0] == self.offsets[1] {
            None
        } else {
            Some(self.data.as_str().substring_char(self.offsets[0], self.offsets[1]))
        }
    }

    /// The level of the message.
    pub fn level(&self) -> (l: Level)
        ensures
            l == self.spec_level(),
    {
        self.level
    }

    /// The target of the message.
    pub fn target(&self) -> (s: &str)
        ensures
            s@ == self.spec_target(),
    {
        proof {
            use_type_invariant(self);
        }
        self.data.as_str().substring_char(0, self.offsets[0])
    }

    /// When the record was made, in nanoseconds since the Unix epoch.
    pub fn time_stamp_nano(&self) -> (t: u128)
        ensures
            t == self.spec_time_stamp(),
    {
        self.time_stamp
    }

    /// The ID of the process that made the record.
    pub fn process_id(&self) -> (p: u32)
        ensures
            p == self.spec_process_id(),
    {
        self.process_id
    }

    /// The identifier of the thread that made the record, as it is printed.
    pub fn thread_id(&self) -> (s: &str)
        ensures
            s@ == self.spec_thread_id(),
    {
        self.thread_id.as_str()
    }
}

impl Clone for Record {
    fn clone(&self) -> (r: Self)
        ensures
            r == *self,
    {
        proof {
            use_type_invariant(self);
        }
        Record {
            data: self.data.clone(),
            logger_name: self.logger_name.clone(),
            offsets: self.offsets,
            line: self.line,
            time_stamp: self.time_stamp,
            level: self.level,
            process_id: self.process_id,
            thread_id: self.thread_id.clone(),
        }
    }
}

} // verus!
