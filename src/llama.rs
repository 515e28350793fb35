//! The vocabulary that the inference engine's interface uses: tokens, token
//! attributes, vocabulary kinds, and the classification of its log lines.
use crate::digest::first_index_of;
use vstd::prelude::*;
use vstd::string::*;

verus! {

/// A token of a model's vocabulary.
#[derive(Clone, Copy, Debug, PartialEq, Eq, Structural)]
pub struct Token(pub i32);

impl Token {
    /// The token's position in the vocabulary.
    pub fn as_index(self) -> (r: usize)
        ensures
            r == self.0 as usize,
    {
        self.0 as usize
    }
}

/// The attribute bits of a token.
#[derive(Clone, Copy, Debug)]
pub struct TokenAttr(pub u32);

/// The bit of an unknown token.
pub const TOKEN_ATTR_UNKNOWN: u32 = 1;

/// The bit of an unused token.
pub const TOKEN_ATTR_UNUSED: u32 = 2;

/// The bit of a normal token.
pub const TOKEN_ATTR_NORMAL: u32 = 4;

/// The bit of a control token.
pub const TOKEN_ATTR_CONTROL: u32 = 8;

/// The bit of a user-defined token.
pub const TOKEN_ATTR_USER_DEFINED: u32 = 16;

/// The bit of a byte token.
pub const TOKEN_ATTR_BYTE: u32 = 32;

/// The bit of a normalized token.
pub const TOKEN_ATTR_NORMALIZED: u32 = 64;

/// The bit of a token that strips spaces on its left.
pub const TOKEN_ATTR_LSTRIP: u32 = 128;

/// The bit of a token that strips spaces on its right.
pub const TOKEN_ATTR_RSTRIP: u32 = 256;

/// The bit of a single-word token.
pub const TOKEN_ATTR_SINGLE_WORD: u32 = 512;

impl TokenAttr {
    /// No attribute bit is set.
    pub fn is_undefined(self) -> (r: bool)
        ensures
            r == (self.0 == 0),
    {
        self.0 == 0
    }

    pub fn is_unknown(self) -> (r: bool)
        ensures
            r == (self.0 & TOKEN_ATTR_UNKNOWN != 0),
    {
        self.0 & TOKEN_ATTR_UNKNOWN != 0
    }

    pub fn is_unused(self) -> (r: bool)
        ensures
            r == (self.0 & TOKEN_ATTR_UNUSED != 0),
    {
        self.0 & TOKEN_ATTR_UNUSED != 0
    }

    pub fn is_normal(self) -> (r: bool)
        ensures
            r == (self.0 & TOKEN_ATTR_NORMAL != 0),
    {
        self.0 & TOKEN_ATTR_NORMAL != 0
    }

    pub fn is_control(self) -> (r: bool)
        ensures
            r == (self.0 & TOKEN_ATTR_CONTROL != 0),
    {
        self.0 & TOKEN_ATTR_CONTROL != 0
    }

    pub fn is_user_defined(self) -> (r: bool)
        ensures
            r == (self.0 & TOKEN_ATTR_USER_DEFINED != 0),
    {
        self.0 & TOKEN_ATTR_USER_DEFINED != 0
    }

    pub fn is_byte(self) -> (r: bool)
        ensures
            r == (self.0 & TOKEN_ATTR_BYTE != 0),
    {
        self.0 & TOKEN_ATTR_BYTE != 0
    }

    pub fn is_normalized(self) -> (r: bool)
        ensures
            r == (self.0 & TOKEN_ATTR_NORMALIZED != 0),
    {
        self.0 & TOKEN_ATTR_NORMALIZED != 0
    }

    pub fn is_lstrip(self) -> (r: bool)
        ensures
            r == (self.0 & TOKEN_ATTR_LSTRIP != 0),
    {
        self.0 & TOKEN_ATTR_LSTRIP != 0
    }

    pub fn is_rstrip(self) -> (r: bool)
        ensures
            r == (self.0 & TOKEN_ATTR_RSTRIP != 0),
    {
        self.0 & TOKEN_ATTR_RSTRIP != 0
    }

    pub fn is_single_word(self) -> (r: bool)
        ensures
            r == (self.0 & TOKEN_ATTR_SINGLE_WORD != 0),
    {
        self.0 & TOKEN_ATTR_SINGLE_WORD != 0
    }
}

/// The kind of a model's vocabulary.
#[derive(Clone, Copy, Debug, PartialEq, Eq, Structural)]
pub enum VocabType {
    SPM,
    BPE,
    WPM,
    UGM,
    RWKV,
    PLAMO2,
}

impl VocabType {
    /// The kind that the engine's code stands for; code 0 means none.
    pub fn from_code(code: i32) -> (r: Option<VocabType>)
        ensures
            r == (if code == 1 {
                Some(VocabType::SPM)
            } else if code == 2 {
                Some(VocabType::BPE)
            } else if code == 3 {
                Some(VocabType::WPM)
            } else if code == 4 {
                Some(VocabType::UGM)
            } else if code == 5 {
                Some(VocabType::RWKV)
            } else if code == 6 {
                Some(VocabType::PLAMO2)
            } else {
                None
            }),
    {
        if code == 1 {
            Some(VocabType::SPM)
        } else if code == 2 {
            Some(VocabType::BPE)
        } else if code == 3 {
            Some(VocabType::WPM)
        } else if code == 4 {
            Some(VocabType::UGM)
        } else if code == 5 {
            Some(VocabType::RWKV)
        } else if code == 6 {
            Some(VocabType::PLAMO2)
        } else {
            None
        }
    }
}

/// The severity of a log line, least severe first.
#[derive(Clone, Copy, Debug, PartialEq, Eq, Structural, PartialOrd, Ord)]
pub enum LogLevel {
    Trace,
    Debug,
    Info,
    Warn,
    Error,
}

impl LogLevel {
    /// The level that the engine's code stands for: 1 to 4 are debug, info,
    /// warning and error; every other code counts as trace.
    pub fn from_code(code: u32) -> (r: LogLevel)
        ensures
            r == (if code == 1 {
                LogLevel::Debug
            } else if code == 2 {
                LogLevel::Info
            } else if code == 3 {
                LogLevel::Warn
            } else if code == 4 {
                LogLevel::Error
            } else {
                LogLevel::Trace
            }),
    {
        if code == 1 {
            LogLevel::Debug
        } else if code == 2 {
            LogLevel::Info
        } else if code == 3 {
            LogLevel::Warn
        } else if code == 4 {
            LogLevel::Error
        } else {
            LogLevel::Trace
        }
    }

    /// The level's name in capitals.
    pub fn as_str(&self) -> (r: &'static str)
        ensures
            r@ == log_level_name(*self),
    {
        proof {
            reveal_strlit("TRACE");
            reveal_strlit("DEBUG");
            reveal_strlit("INFO");
            reveal_strlit("WARN");
            reveal_strlit("ERROR");
        }
        match self {
            LogLevel::Trace => "TRACE",
            LogLevel::Debug => "DEBUG",
            LogLevel::Info => "INFO",
            LogLevel::Warn => "WARN",
            LogLevel::Error => "ERROR",
        }
    }
}

/// The name of a level in capitals.
pub open spec fn log_level_name(l: LogLevel) -> Seq<char> {
    match l {
        LogLevel::Trace => "TRACE"@,
        LogLevel::Debug => "DEBUG"@,
        LogLevel::Info => "INFO"@,
        LogLevel::Warn => "WARN"@,
        LogLevel::Error => "ERROR"@,
    }
}

/// The part of the engine that wrote a log line.
#[derive(Clone, Copy, Debug, PartialEq, Eq, Structural)]
pub enum LogKey {
    KvCache,
    GraphReserve,
    Context,
    ModelLoader,
    CreateTensor,
    CreateMemory,
    GgufInitFile,
    Load,
    LoadTensors,
    InitTokenizer,
    ModelLoad,
    PrintInfo,
    SetAbortCallback,
    RegisterBackend,
    RegisterDevice,
    GgmlMetalDeviceInit,
    GgmlMetalLibraryInit,
    GgmlMetalInit,
    GgmlMetalLibraryCompilePipeline,
    GgmlGallocrReserveN,
    GgmlMetalLogAllocatedSize,
    Unknown,
}

/// The category names that are known, each with its key; any other name is
/// `Unknown`.
pub open spec fn known_log_keys() -> Seq<(Seq<char>, LogKey)> {
    seq![
        ("llama_kv_cache"@, LogKey::KvCache),
        ("llama_context"@, LogKey::Context),
        ("llama_model_loader"@, LogKey::ModelLoader),
        ("llama_model_load"@, LogKey::ModelLoad),
        ("llama_model_load_from_file_impl"@, LogKey::ModelLoad),
        ("init_tokenizer"@, LogKey::InitTokenizer),
        ("gguf_init_from_file_impl"@, LogKey::GgufInitFile),
        ("ggml_gallocr_reserve_n"@, LogKey::GgmlGallocrReserveN),
        ("set_abort_callback"@, LogKey::SetAbortCallback),
        ("load"@, LogKey::Load),
        ("print_info"@, LogKey::PrintInfo),
        ("load_tensors"@, LogKey::LoadTensors),
        ("graph_reserve"@, LogKey::GraphReserve),
        ("create_tensor"@, LogKey::CreateTensor),
        ("create_memory"@, LogKey::CreateMemory),
        ("register_backend"@, LogKey::RegisterBackend),
        ("register_device"@, LogKey::RegisterDevice),
        ("ggml_metal_device_init"@, LogKey::GgmlMetalDeviceInit),
        ("ggml_metal_library_init"@, LogKey::GgmlMetalLibraryInit),
        ("ggml_metal_init"@, LogKey::GgmlMetalInit),
        ("ggml_metal_library_compile_pipeline"@, LogKey::GgmlMetalLibraryCompilePipeline),
        ("ggml_metal_log_allocated_size"@, LogKey::GgmlMetalLogAllocatedSize),
    ]
}

/// The key of the first known category named `name`, from position `i` on.
pub open spec fn log_key_from(name: Seq<char>, i: nat) -> LogKey
    decreases known_log_keys().len() - i,
{
    if i >= known_log_keys().len() {
        LogKey::Unknown
    } else if known_log_keys()[i as int].0 == name {
        known_log_keys()[i as int].1
    } else {
        log_key_from(name, i + 1)
    }
}

/// The key of a category name.
pub open spec fn log_key_of(name: Seq<char>) -> LogKey {
    log_key_from(name, 0)
}

fn log_key_table() -> (r: Vec<(&'static str, LogKey)>)
    ensures
        r@.map_values(|p: (&'static str, LogKey)| (p.0@, p.1)) == known_log_keys(),
{
    let mut t: Vec<(&'static str, LogKey)> = Vec::new();
    t.push(("llama_kv_cache", LogKey::KvCache));
    t.push(("llama_context", LogKey::Context));
    t.push(("llama_model_loader", LogKey::ModelLoader));
    t.push(("llama_model_load", LogKey::ModelLoad));
    t.push(("llama_model_load_from_file_impl", LogKey::ModelLoad));
    t.push(("init_tokenizer", LogKey::InitTokenizer));
    t.push(("gguf_init_from_file_impl", LogKey::GgufInitFile));
    t.push(("ggml_gallocr_reserve_n", LogKey::GgmlGallocrReserveN));
    t.push(("set_abort_callback", LogKey::SetAbortCallback));
    t.push(("load", LogKey::Load));
    t.push(("print_info", LogKey::PrintInfo));
    t.push(("load_tensors", LogKey::LoadTensors));
    t.push(("graph_reserve", LogKey::GraphReserve));
    t.push(("create_tensor", LogKey::CreateTensor));
    t.push(("create_memory", LogKey::CreateMemory));
    t.push(("register_backend", LogKey::RegisterBackend));
    t.push(("register_device", LogKey::RegisterDevice));
    t.push(("ggml_metal_device_init", LogKey::GgmlMetalDeviceInit));
    t.push(("ggml_metal_library_init", LogKey::GgmlMetalLibraryInit));
    t.push(("ggml_metal_init", LogKey::GgmlMetalInit));
    t.push(("ggml_metal_library_compile_pipeline", LogKey::GgmlMetalLibraryCompilePipeline));
    t.push(("ggml_metal_log_allocated_size", LogKey::GgmlMetalLogAllocatedSize));
    proof {
        reveal_strlit("llama_kv_cache");
        reveal_strlit("llama_context");
        reveal_strlit("llama_model_loader");
        reveal_strlit("llama_model_load");
        reveal_strlit("llama_model_load_from_file_impl");
        reveal_strlit("init_tokenizer");
        reveal_strlit("gguf_init_from_file_impl");
        reveal_strlit("ggml_gallocr_reserve_n");
        reveal_strlit("set_abort_callback");
        reveal_strlit("load");
        reveal_strlit("print_info");
        reveal_strlit("load_tensors");
        reveal_strlit("graph_reserve");
        reveal_strlit("create_tensor");
        reveal_strlit("create_memory");
        reveal_strlit("register_backend");
        reveal_strlit("register_device");
        reveal_strlit("ggml_metal_device_init");
        reveal_strlit("ggml_metal_library_init");
        reveal_strlit("ggml_metal_init");
        reveal_strlit("ggml_metal_library_compile_pipeline");
        reveal_strlit("ggml_metal_log_allocated_size");
        assert(t@.map_values(|p: (&'static str, LogKey)| (p.0@, p.1)) =~= known_log_keys());
    }
    t
}

impl LogKey {
    /// The key of a category name; a name that is not known gives `Unknown`.
    pub fn from_category(name: &str) -> (r: LogKey)
        ensures
            r == log_key_of(name@),
    {
        let table = log_key_table();
        let wanted = String::from_str(name);
        let mut i: usize = 0;
        while i < table.len()
            invariant
                table@.map_values(|p: (&'static str, LogKey)| (p.0@, p.1)) == known_log_keys(),
                wanted@ == name@,
                i <= table@.len(),
                log_key_of(name@) == log_key_from(name@, i as nat),
            decreases table@.len() - i,
        {
            let (known, key) = table[i];
            assert(known@ == known_log_keys()[i as int].0);
            if String::from_str(known) == wanted {
                return key;
            }
            i = i + 1;
        }
        LogKey::Unknown
    }
}

/// A log line without one trailing line break.
pub open spec fn without_newline(s: Seq<char>) -> Seq<char> {
    if s.len() > 0 && s.last() == '\n' {
        s.drop_last()
    } else {
        s
    }
}

/// How a log line is classified: the text before its first `:` names the
/// category and the rest is the message; a line without `:` is all message,
/// of an unknown category. One trailing line break is dropped first.
pub open spec fn classify_log(s: Seq<char>) -> (LogKey, Seq<char>) {
    let x = without_newline(s);
    match first_index_of(x, ':') {
        Some(i) => (log_key_of(x.take(i)), x.skip(i + 1)),
        None => (LogKey::Unknown, x),
    }
}

/// Classifies a line that the engine logged.
pub fn classify_log_line(line: &str) -> (r: (LogKey, String))
    ensures
        r.0 == classify_log(line@).0,
        r.1@ == classify_log(line@).1,
{
    let n0 = line.unicode_len();
    let n = if n0 > 0 && line.get_char(n0 - 1) == '\n' {
        n0 - 1
    } else {
        n0
    };
    let x = line.substring_char(0, n);
    assert(x@ =~= without_newline(line@));
    let mut i: usize = 0;
    let mut found = false;
    while i < n && !found
        invariant
            n == x@.len(),
            i <= n,
            found ==> i < n && x@[i as int] == ':',
            forall|j: int| 0 <= j < i ==> x@[j] != ':',
        decreases n - i + (if found { 0int } else { 1int }),
    {
        if x.get_char(i) == ':' {
            found = true;
        } else {
            i = i + 1;
        }
    }
    if !found {
        assert(first_index_of(x@, ':') is None);
        return (LogKey::Unknown, String::from_str(x));
    }
    assert(first_index_of(x@, ':') == Some(i as int)) by {
        let k = choose|k: int|
            0 <= k < x@.len() && x@[k] == ':' && forall|j: int| 0 <= j < k ==> x@[j] != ':';
        assert(!(k < i));
        assert(!(k > i));
    }
    let category = x.substring_char(0, i);
    let message = x.substring_char(i + 1, n);
    assert(category@ =~= x@.take(i as int));
    assert(message@ =~= x@.skip(i + 1));
    (LogKey::from_category(category), String::from_str(message))
}

/// Whether a log line is shown: errors always, the model loader's lines
/// always, and everything else only when debugging.
pub fn log_shown(level: LogLevel, key: LogKey, debug: bool) -> (r: bool)
    ensures
        r == (level == LogLevel::Error || debug || key == LogKey::ModelLoader),
{
    level == LogLevel::Error || debug || key == LogKey::ModelLoader
}

} // verus!
