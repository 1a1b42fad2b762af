use vstd::prelude::*;
use vstd::string::StringExecFns;

use crate::sort::{stable_sort_by_key, stable_sorted};
use crate::progress::{strip_keys, unkeyed};
use crate::validate::{char_is_whitespace, unicode_white_space};

verus! {

/// An option of a command.
#[derive(Debug)]
pub struct ArgSpec {
    pub name: String,
    pub short: Option<char>,
    pub long: Option<String>,
    pub help: Option<String>,
    pub global: bool,
    pub required: bool,
    pub num_args: Option<usize>,
}

/// A command of the command line and of the interactive prompt, with its
/// subcommands.
#[derive(Debug)]
pub struct CommandSpec {
    pub name: String,
    pub about: Option<String>,
    pub aliases: Vec<String>,
    pub args: Vec<ArgSpec>,
    pub subcommand_required: bool,
    pub multicall: bool,
    pub subcommands: Vec<CommandSpec>,
}

impl CommandSpec {
    /// A command with a name and a description, and nothing else yet.
    pub fn new(name: &str, about: &str) -> (r: CommandSpec)
        ensures
            r.name@ == name@,
            r.about matches Some(a) && a@ == about@,
            r.aliases@.len() == 0,
            texts_of(r.aliases@) == Seq::<Seq<char>>::empty(),
            r.args@.len() == 0,
            !r.subcommand_required,
            !r.multicall,
            r.subcommands@.len() == 0,
    {
        CommandSpec {
            name: name.to_string(),
            about: Some(about.to_string()),
            aliases: Vec::new(),
            args: Vec::new(),
            subcommand_required: false,
            multicall: false,
            subcommands: Vec::new(),
        }
    }

    /// The command with one more alias.
    pub fn alias(self, alias: &str) -> (r: CommandSpec)
        ensures
            r.name == self.name,
            r.about == self.about,
            r.aliases@.len() == self.aliases@.len() + 1,
            forall|i: int| 0 <= i < self.aliases@.len() ==> r.aliases@[i] == self.aliases@[i],
            r.aliases@.last()@ == alias@,
            texts_of(r.aliases@) == texts_of(self.aliases@).push(alias@),
            r.args == self.args,
            r.subcommand_required == self.subcommand_required,
            r.multicall == self.multicall,
            r.subcommands == self.subcommands,
    {
        let mut c = self;
        let ghost before = c.aliases@;
        c.aliases.push(alias.to_string());
        assert(texts_of(c.aliases@) =~= texts_of(before).push(alias@));
        c
    }

    /// The command with one more subcommand.
    pub fn subcommand(self, sub: CommandSpec) -> (r: CommandSpec)
        ensures
            r.name == self.name,
            r.about == self.about,
            r.aliases == self.aliases,
            r.args == self.args,
            r.subcommand_required == self.subcommand_required,
            r.multicall == self.multicall,
            r.subcommands@ == self.subcommands@.push(sub),
    {
        let mut c = self;
        c.subcommands.push(sub);
        c
    }

    /// The command with more subcommands.
    pub fn subcommands(self, subs: Vec<CommandSpec>) -> (r: CommandSpec)
        ensures
            r.name == self.name,
            r.about == self.about,
            r.aliases == self.aliases,
            r.args == self.args,
            r.subcommand_required == self.subcommand_required,
            r.multicall == self.multicall,
            r.subcommands@ == self.subcommands@ + subs@,
    {
        let mut c = self;
        let mut rest = subs;
        c.subcommands.append(&mut rest);
        c
    }

    /// The command with one more option.
    pub fn arg(self, arg: ArgSpec) -> (r: CommandSpec)
        ensures
            r.name == self.name,
            r.about == self.about,
            r.aliases == self.aliases,
            r.args@ == self.args@.push(arg),
            r.subcommand_required == self.subcommand_required,
            r.multicall == self.multicall,
            r.subcommands == self.subcommands,
    {
        let mut c = self;
        c.args.push(arg);
        c
    }

    /// The command, requiring (or not) a subcommand.
    pub fn subcommand_required(self, required: bool) -> (r: CommandSpec)
        ensures
            r.name == self.name,
            r.about == self.about,
            r.aliases == self.aliases,
            r.args == self.args,
            r.subcommand_required == required,
            r.multicall == self.multicall,
            r.subcommands == self.subcommands,
    {
        let mut c = self;
        c.subcommand_required = required;
        c
    }
}

/// The names of the kinds of record the commands work on, in the order the
/// commands list them.
pub open spec fn type_names() -> Seq<Seq<char>> {
    seq![
        "book"@,
        "series"@,
        "review"@,
        "edition"@,
        "edition-review"@,
        "author"@,
        "publisher"@,
        "genre"@,
        "mood"@,
        "pace"@,
        "language"@,
        "progress"@,
    ]
}

/// The short aliases of the kinds of record, in the order of `type_names`.
pub open spec fn type_aliases() -> Seq<Seq<Seq<char>>> {
    seq![
        seq!["b"@],
        seq!["s"@],
        seq!["r"@],
        seq!["e"@],
        seq!["er"@],
        seq!["a"@],
        seq!["pub"@],
        seq!["g"@],
        seq!["m"@],
        seq![],
        seq!["l"@],
        seq!["p"@],
    ]
}

/// The descriptions of the kinds of record, in the order of `type_names`.
pub open spec fn type_abouts() -> Seq<Seq<char>> {
    seq![
        "A book"@,
        "A book series"@,
        "A review of a book"@,
        "An edition of a book"@,
        "A review of a specific edition of a book"@,
        "An author"@,
        "A publisher"@,
        "Genres of a book"@,
        "Mood of a book"@,
        "Pace of a book"@,
        "Language of an edition of a book"@,
        "A progress report for an edition"@,
    ]
}

/// `c` is a plain command (not multicall) with this name, description and
/// aliases, and no options.
pub open spec fn described(
    c: CommandSpec,
    name: Seq<char>,
    about: Seq<char>,
    aliases: Seq<Seq<char>>,
) -> bool {
    &&& c.name@ == name
    &&& c.about matches Some(a) && a@ == about
    &&& texts_of(c.aliases@) == aliases
    &&& c.args@.len() == 0
    &&& !c.multicall
}

/// `c` is a plain command with this name, description and aliases, no
/// options and no subcommands.
pub open spec fn leaf_command(
    c: CommandSpec,
    name: Seq<char>,
    about: Seq<char>,
    aliases: Seq<Seq<char>>,
) -> bool {
    &&& described(c, name, about, aliases)
    &&& !c.subcommand_required
    &&& c.subcommands@.len() == 0
}

/// The first twelve of `cmds` are the commands of the kinds of record, with
/// their names, descriptions and aliases.
pub open spec fn kind_commands(cmds: Seq<CommandSpec>) -> bool {
    &&& cmds.len() >= 12
    &&& forall|k: int|
        0 <= k < 12 ==> leaf_command(
            #[trigger] cmds[k],
            type_names()[k],
            type_abouts()[k],
            type_aliases()[k],
        )
}

/// `a` is an option of the query command valid below it too, not required,
/// with this name, short and long forms, number of values and help text.
pub open spec fn query_flag_is(
    a: ArgSpec,
    name: Seq<char>,
    short: char,
    num_args: usize,
    help: Seq<char>,
) -> bool {
    &&& a.name@ == name
    &&& a.short == Some(short)
    &&& a.long matches Some(l) && l@ == name
    &&& a.help matches Some(h) && h@ == help
    &&& a.global
    &&& !a.required
    &&& a.num_args == Some(num_args)
}

/// The commands `cmds` are named `names`, in order, and have no subcommands.
pub open spec fn leaves_named(cmds: Seq<CommandSpec>, names: Seq<Seq<char>>) -> bool {
    &&& cmds.len() == names.len()
    &&& forall|i: int|
        0 <= i < cmds.len() ==> (#[trigger] cmds[i]).name@ == names[i]
            && cmds[i].subcommands@.len() == 0
}

/// The kinds of record the commands work on, each with a short alias.
pub fn arg_parser_types() -> (r: Vec<CommandSpec>)
    ensures
        r@.len() == 12,
        kind_commands(r@),
        leaves_named(r@, type_names()),
{
    let mut v: Vec<CommandSpec> = Vec::new();
    v.push(CommandSpec::new("book", "A book").alias("b"));
    v.push(CommandSpec::new("series", "A book series").alias("s"));
    v.push(CommandSpec::new("review", "A review of a book").alias("r"));
    v.push(CommandSpec::new("edition", "An edition of a book").alias("e"));
    v.push(
        CommandSpec::new("edition-review", "A review of a specific edition of a book").alias("er"),
    );
    v.push(CommandSpec::new("author", "An author").alias("a"));
    v.push(CommandSpec::new("publisher", "A publisher").alias("pub"));
    v.push(CommandSpec::new("genre", "Genres of a book").alias("g"));
    v.push(CommandSpec::new("mood", "Mood of a book").alias("m"));
    v.push(CommandSpec::new("pace", "Pace of a book"));
    v.push(CommandSpec::new("language", "Language of an edition of a book").alias("l"));
    v.push(CommandSpec::new("progress", "A progress report for an edition").alias("p"));
    v
}

/// A flag of the query command, valid below it too.
fn query_flag(name: &str, short: char, long: &str, takes_value: bool, help: &str) -> (r: ArgSpec)
    ensures
        r.name@ == name@,
        r.short == Some(short),
        r.long matches Some(l) && l@ == long@,
        r.help matches Some(h) && h@ == help@,
        r.global,
        !r.required,
        r.num_args == Some(if takes_value { 1usize } else { 0usize }),
{
    ArgSpec {
        name: name.to_string(),
        short: Some(short),
        long: Some(long.to_string()),
        help: Some(help.to_string()),
        global: true,
        required: false,
        num_args: Some(if takes_value { 1 } else { 0 }),
    }
}

/// The commands shared by the command line and the interactive prompt, as
/// the first five of `cmds`: `add`, `edit`, `remove` and `query`, each
/// requiring one of the commands of the kinds of record (`add` also allows
/// `by_isbn`), `query` with its three options, and `listen`; with their
/// descriptions and aliases.
pub open spec fn common_commands(cmds: Seq<CommandSpec>) -> bool {
    &&& cmds.len() >= 5
    &&& described(cmds[0], "add"@, "Add something (book/review/etc.)"@, seq!["a"@, "insert"@])
    &&& cmds[0].subcommand_required
    &&& cmds[0].subcommands@.len() == 13
    &&& kind_commands(cmds[0].subcommands@)
    &&& leaf_command(
        cmds[0].subcommands@[12],
        "by_isbn"@,
        "Add a book by querying OpenLibrary for an ISBN"@,
        seq!["isbn"@],
    )
    &&& described(cmds[1], "edit"@, "Edit something (book/review/etc.)"@, seq!["e"@, "update"@])
    &&& cmds[1].subcommand_required
    &&& cmds[1].subcommands@.len() == 12
    &&& kind_commands(cmds[1].subcommands@)
    &&& described(
        cmds[2],
        "remove"@,
        "Remove something (book/review/etc.)"@,
        seq!["r"@, "delete"@],
    )
    &&& cmds[2].subcommand_required
    &&& cmds[2].subcommands@.len() == 12
    &&& kind_commands(cmds[2].subcommands@)
    &&& cmds[3].name@ == "query"@
    &&& cmds[3].about matches Some(a) && a@ == "Get existing records in database"@
    &&& texts_of(cmds[3].aliases@) == seq!["q"@, "get"@]
    &&& !cmds[3].multicall
    &&& cmds[3].args@.len() == 3
    &&& query_flag_is(cmds[3].args@[0], "all"@, 'a', 0, "Display all records in database"@)
    &&& query_flag_is(cmds[3].args@[1], "interactive"@, 'i', 0, "Launch an interactive search"@)
    &&& query_flag_is(cmds[3].args@[2], "uuid"@, 'u', 1, "Get record by uuid"@)
    &&& cmds[3].subcommand_required
    &&& cmds[3].subcommands@.len() == 12
    &&& kind_commands(cmds[3].subcommands@)
    &&& leaf_command(cmds[4], "listen"@, "Start a web server for scanning isbn numbers"@, seq![])
}

/// The commands common to the command line and the interactive prompt: add,
/// edit, remove and query a kind of record, and listen for ISBNs.
pub fn arg_parser() -> (r: CommandSpec)
    ensures
        r.name@ == "tomex"@,
        r.multicall,
        r.subcommand_required,
        r.subcommands@.len() == 5,
        r.about matches Some(a) && a@ == "Personal book management"@,
        texts_of(r.aliases@) == Seq::<Seq<char>>::empty(),
        r.args@.len() == 0,
        common_commands(r.subcommands@),
{
    let add = CommandSpec::new("add", "Add something (book/review/etc.)").alias("a").alias(
        "insert",
    ).subcommand_required(true).subcommands(arg_parser_types()).subcommand(
        CommandSpec::new("by_isbn", "Add a book by querying OpenLibrary for an ISBN").alias("isbn"),
    );
    let edit = CommandSpec::new("edit", "Edit something (book/review/etc.)").alias("e").alias(
        "update",
    ).subcommand_required(true).subcommands(arg_parser_types());
    let remove = CommandSpec::new("remove", "Remove something (book/review/etc.)").alias(
        "r",
    ).alias("delete").subcommand_required(true).subcommands(arg_parser_types());
    let query = CommandSpec::new("query", "Get existing records in database").alias("q").alias(
        "get",
    ).arg(query_flag("all", 'a', "all", false, "Display all records in database")).arg(
        query_flag("interactive", 'i', "interactive", false, "Launch an interactive search"),
    ).arg(query_flag("uuid", 'u', "uuid", true, "Get record by uuid")).subcommand_required(
        true,
    ).subcommands(arg_parser_types());
    let listen = CommandSpec::new("listen", "Start a web server for scanning isbn numbers");
    assert(texts_of(add.aliases@) =~= seq!["a"@, "insert"@]);
    assert(texts_of(edit.aliases@) =~= seq!["e"@, "update"@]);
    assert(texts_of(remove.aliases@) =~= seq!["r"@, "delete"@]);
    assert(texts_of(query.aliases@) =~= seq!["q"@, "get"@]);
    let mut root = CommandSpec::new("tomex", "Personal book management");
    root.multicall = true;
    root.subcommand_required = true;
    root.subcommand(add).subcommand(edit).subcommand(remove).subcommand(query).subcommand(listen)
}

/// The commands of the interactive prompt: the common ones and `exit`.
pub fn arg_parser_repl() -> (r: CommandSpec)
    ensures
        r.name@ == "tomex"@,
        r.multicall,
        r.subcommand_required,
        r.about matches Some(a) && a@ == "Personal book management"@,
        r.subcommands@.len() == 6,
        common_commands(r.subcommands@),
        leaf_command(r.subcommands@[5], "exit"@, "Exit the repl"@, seq![]),
{
    arg_parser().subcommand(CommandSpec::new("exit", "Exit the repl"))
}

/// The commands of the command line: the common ones and repl, backup,
/// restore and export.
pub fn arg_parser_cli() -> (r: CommandSpec)
    ensures
        r.name@ == "tomex"@,
        r.subcommands@.len() == 9,
        r.multicall,
        r.subcommand_required,
        r.about matches Some(a) && a@ == "Personal book management"@,
        common_commands(r.subcommands@),
        leaf_command(r.subcommands@[5], "repl"@, "Launch a read eval print loop"@, seq![]),
        leaf_command(r.subcommands@[6], "backup"@, "Backup the database to JSON"@, seq![]),
        r.subcommands@[7].name@ == "restore"@,
        r.subcommands@[7].about matches Some(a) && a@
            == "Turn JSON from backup command to new sqlite database"@,
        r.subcommands@[7].aliases@.len() == 0,
        !r.subcommands@[7].multicall,
        !r.subcommands@[7].subcommand_required,
        r.subcommands@[7].subcommands@.len() == 0,
        r.subcommands@[7].args@.len() == 1,
        r.subcommands@[7].args@[0] == (ArgSpec {
            name: r.subcommands@[7].args@[0].name,
            short: None,
            long: None,
            help: None,
            global: false,
            required: true,
            num_args: None,
        }),
        r.subcommands@[7].args@[0].name@ == "file"@,
        leaf_command(
            r.subcommands@[8],
            "export"@,
            "Export to a format you can import in goodreads/storygraph/bookwyrm"@,
            seq![],
        ),
{
    let restore = CommandSpec::new(
        "restore",
        "Turn JSON from backup command to new sqlite database",
    ).arg(
        ArgSpec {
            name: "file".to_string(),
            short: None,
            long: None,
            help: None,
            global: false,
            required: true,
            num_args: None,
        },
    );
    arg_parser().subcommand(CommandSpec::new("repl", "Launch a read eval print loop")).subcommand(
        CommandSpec::new("backup", "Backup the database to JSON"),
    ).subcommand(restore).subcommand(
        CommandSpec::new(
            "export",
            "Export to a format you can import in goodreads/storygraph/bookwyrm",
        ),
    )
}

/// The text without leading white space.
pub open spec fn trim_start(s: Seq<char>) -> Seq<char>
    decreases s.len(),
{
    if s.len() > 0 && unicode_white_space(s[0]) {
        trim_start(s.drop_first())
    } else {
        s
    }
}

/// The text without trailing white space.
pub open spec fn trim_end(s: Seq<char>) -> Seq<char>
    decreases s.len(),
{
    if s.len() > 0 && unicode_white_space(s.last()) {
        trim_end(s.drop_last())
    } else {
        s
    }
}

/// The text without leading and trailing white space.
pub open spec fn trimmed(s: Seq<char>) -> Seq<char> {
    trim_end(trim_start(s))
}

/// The text without leading and trailing white space (what `str::trim`
/// gives).
fn trim_str(s: &str) -> (r: &str)
    ensures
        r@ == trimmed(s@),
{
    let n = s.unicode_len();
    let mut a: usize = 0;
    assert(s@.skip(0) =~= s@);
    while a < n
        invariant
            n == s@.len(),
            a <= n,
            trim_start(s@) == trim_start(s@.skip(a as int)),
        ensures
            a <= n,
            trim_start(s@) == trim_start(s@.skip(a as int)),
            a < n ==> !unicode_white_space(s@[a as int]),
        decreases n - a,
    {
        let c = s.get_char(a);
        if !char_is_whitespace(c) {
            break;
        }
        assert(s@.skip(a as int)[0] == c);
        assert(s@.skip(a as int).drop_first() =~= s@.skip(a + 1));
        a = a + 1;
    }
    if a < n {
        assert(s@.skip(a as int)[0] == s@[a as int]);
    } else {
        assert(s@.skip(a as int) =~= Seq::<char>::empty());
    }
    assert(trim_start(s@) == s@.skip(a as int));
    let mut b: usize = n;
    assert(s@.subrange(a as int, n as int) =~= s@.skip(a as int));
    while b > a
        invariant
            n == s@.len(),
            a <= b <= n,
            trim_end(trim_start(s@)) == trim_end(s@.subrange(a as int, b as int)),
        ensures
            a <= b <= n,
            trim_end(trim_start(s@)) == trim_end(s@.subrange(a as int, b as int)),
            b > a ==> !unicode_white_space(s@[b - 1]),
        decreases b,
    {
        let c = s.get_char(b - 1);
        if !char_is_whitespace(c) {
            break;
        }
        assert(s@.subrange(a as int, b as int).last() == c);
        assert(s@.subrange(a as int, b as int).drop_last() =~= s@.subrange(a as int, b - 1));
        b = b - 1;
    }
    if b > a {
        assert(s@.subrange(a as int, b as int).last() == s@[b - 1]);
    } else {
        assert(s@.subrange(a as int, b as int) =~= Seq::<char>::empty());
    }
    s.substring_char(a, b)
}

/// The completion entry of a command below `parent`: the names joined by a
/// space, trimmed.
pub open spec fn entry_name(parent: Seq<char>, name: Seq<char>) -> Seq<char> {
    trimmed(parent + " "@ + name)
}

/// The completion entries of a command and all commands below it, the command
/// first, then each subcommand's entries in order.
pub open spec fn entries(parent: Seq<char>, cmd: CommandSpec) -> Seq<Seq<char>>
    decreases cmd, 1int,
{
    let me = entry_name(parent, cmd.name@);
    seq![me] + entries_of_all(me, cmd.subcommands@)
}

/// The completion entries of a list of commands below `parent`, in order.
pub open spec fn entries_of_all(parent: Seq<char>, cmds: Seq<CommandSpec>) -> Seq<Seq<char>>
    decreases cmds, 0int,
{
    if cmds.len() == 0 {
        Seq::empty()
    } else {
        entries_of_all(parent, cmds.drop_last()) + entries(parent, cmds.last())
    }
}

/// Appends the completion entries of `cmd` below `parent`.
fn add_command(parent: &str, cmd: &CommandSpec, out: &mut Vec<String>)
    ensures
        texts_of(final(out)@) == texts_of(old(out)@) + entries(parent@, *cmd),
    decreases *cmd,
{
    let mut joined = parent.to_string();
    joined.append(" ");
    joined.append(cmd.name.as_str());
    let name = trim_str(joined.as_str()).to_string();
    let ghost me = name@;
    assert(me == entry_name(parent@, cmd.name@));
    let ghost start = texts_of(out@);
    out.push(name.clone());
    assert(texts_of(out@) =~= start.push(me));
    let mut i: usize = 0;
    while i < cmd.subcommands.len()
        invariant
            i <= cmd.subcommands@.len(),
            me == entry_name(parent@, cmd.name@),
            name@ == me,
            texts_of(out@) == start + seq![me] + entries_of_all(me, cmd.subcommands@.take(i as int)),
        decreases cmd.subcommands@.len() - i,
    {
        proof {
            assert(cmd.subcommands@.take(i + 1).drop_last() =~= cmd.subcommands@.take(i as int));
            assert(cmd.subcommands@.take(i + 1).last() == cmd.subcommands@[i as int]);
        }
        let ghost before = texts_of(out@);
        add_command(name.as_str(), &cmd.subcommands[i], out);
        proof {
            assert(texts_of(out@) =~= start + seq![me] + entries_of_all(
                me,
                cmd.subcommands@.take(i + 1),
            ));
        }
        i = i + 1;
    }
    proof {
        assert(cmd.subcommands@.take(cmd.subcommands@.len() as int) =~= cmd.subcommands@);
        assert(start + seq![me] + entries_of_all(me, cmd.subcommands@) =~= start + entries(
            parent@,
            *cmd,
        ));
    }
}

/// The texts of a vector of strings.
pub open spec fn texts_of(v: Seq<String>) -> Seq<Seq<char>> {
    v.map_values(|s: String| s@)
}

/// The entries paired with themselves as sort keys.
pub open spec fn self_keyed(v: Seq<String>) -> Seq<(String, String)> {
    v.map_values(|s: String| (s, s))
}

/// Sorts strings in lexicographic order.
pub fn sort_strings(v: Vec<String>) -> (r: Vec<String>)
    ensures
        r@ == unkeyed(stable_sorted(self_keyed(v@))),
{
    let mut keyed: Vec<(String, String)> = Vec::new();
    let mut i: usize = 0;
    while i < v.len()
        invariant
            i <= v.len(),
            keyed@ == self_keyed(v@.take(i as int)),
        decreases v.len() - i,
    {
        let s = v[i].clone();
        let t = v[i].clone();
        keyed.push((s, t));
        proof {
            assert(self_keyed(v@.take(i + 1)) =~= self_keyed(v@.take(i as int)).push(
                (v@[i as int], v@[i as int]),
            ));
        }
        i = i + 1;
    }
    proof {
        assert(v@.take(v.len() as int) =~= v@);
    }
    strip_keys(stable_sort_by_key(keyed))
}

/// The completion entries of the subcommands of `cmd` (each command path as
/// its names separated by spaces), in sorted order.
pub fn completions_of(cmd: &CommandSpec) -> (r: Vec<String>)
    ensures
        exists|found: Seq<String>|
            texts_of(found) == entries_of_all(""@, cmd.subcommands@) && r@ == unkeyed(
                stable_sorted(self_keyed(found)),
            ),
{
    let mut out: Vec<String> = Vec::new();
    let mut i: usize = 0;
    while i < cmd.subcommands.len()
        invariant
            i <= cmd.subcommands@.len(),
            texts_of(out@) == entries_of_all(""@, cmd.subcommands@.take(i as int)),
        decreases cmd.subcommands@.len() - i,
    {
        proof {
            assert(cmd.subcommands@.take(i + 1).drop_last() =~= cmd.subcommands@.take(i as int));
        }
        add_command("", &cmd.subcommands[i], &mut out);
        i = i + 1;
    }
    proof {
        assert(cmd.subcommands@.take(cmd.subcommands@.len() as int) =~= cmd.subcommands@);
    }
    sort_strings(out)
}

/// A name that trimming leaves alone: it starts and ends with a character
/// that is not white space.
pub open spec fn plain_name(s: Seq<char>) -> bool {
    s.len() > 0 && !unicode_white_space(s[0]) && !unicode_white_space(s.last())
}

/// The completion entries of a command named `top` whose subcommands, named
/// `subs`, have none of their own.
pub open spec fn group_entries(top: Seq<char>, subs: Seq<Seq<char>>) -> Seq<Seq<char>> {
    seq![top] + subs.map_values(|sub: Seq<char>| top + " "@ + sub)
}

/// The completion entries of the interactive prompt's commands, before
/// sorting.
pub open spec fn repl_entries() -> Seq<Seq<char>> {
    group_entries("add"@, type_names().push("by_isbn"@)) + group_entries("edit"@, type_names())
        + group_entries("remove"@, type_names()) + group_entries("query"@, type_names()) + seq![
        "listen"@,
        "exit"@,
    ]
}

proof fn lemma_plain_trimmed(s: Seq<char>)
    requires
        plain_name(s),
    ensures
        trimmed(s) == s,
{
}

proof fn lemma_top_entry(name: Seq<char>)
    requires
        plain_name(name),
    ensures
        entry_name(""@, name) == name,
{
    reveal_strlit("");
    reveal_strlit(" ");
    let s = ""@ + " "@ + name;
    assert(s.drop_first() =~= name);
    assert(trim_start(s) == trim_start(name));
}

proof fn lemma_sub_entry(top: Seq<char>, name: Seq<char>)
    requires
        plain_name(top),
        plain_name(name),
    ensures
        entry_name(top, name) == top + " "@ + name,
{
    reveal_strlit(" ");
    let s = top + " "@ + name;
    assert(s[0] == top[0]);
    assert(s.last() == name.last());
    lemma_plain_trimmed(s);
}

proof fn lemma_entries_push(parent: Seq<char>, cmds: Seq<CommandSpec>, c: CommandSpec)
    ensures
        entries_of_all(parent, cmds.push(c)) == entries_of_all(parent, cmds) + entries(parent, c),
{
    assert(cmds.push(c).drop_last() =~= cmds);
}

/// The entries of commands without subcommands below a plain `parent`.
proof fn lemma_leaf_entries(parent: Seq<char>, cmds: Seq<CommandSpec>, names: Seq<Seq<char>>)
    requires
        plain_name(parent),
        leaves_named(cmds, names),
        forall|i: int| 0 <= i < names.len() ==> plain_name(#[trigger] names[i]),
    ensures
        entries_of_all(parent, cmds) == names.map_values(|sub: Seq<char>| parent + " "@ + sub),
    decreases cmds.len(),
{
    if cmds.len() == 0 {
        assert(names.map_values(|sub: Seq<char>| parent + " "@ + sub) =~= Seq::<Seq<char>>::empty());
    } else {
        let n = cmds.len() - 1;
        lemma_leaf_entries(parent, cmds.drop_last(), names.drop_last());
        let c = cmds.last();
        assert(names[n] == c.name@);
        lemma_sub_entry(parent, c.name@);
        assert(c.subcommands@ =~= Seq::<CommandSpec>::empty());
        assert(entries(parent, c) =~= seq![parent + " "@ + names[n]]);
        assert(names.map_values(|sub: Seq<char>| parent + " "@ + sub) =~= names.drop_last().map_values(
            |sub: Seq<char>| parent + " "@ + sub,
        ).push(parent + " "@ + names[n]));
    }
}

/// The entries of a top-level command whose subcommands have none.
proof fn lemma_group_entries(cmd: CommandSpec, names: Seq<Seq<char>>)
    requires
        plain_name(cmd.name@),
        leaves_named(cmd.subcommands@, names),
        forall|i: int| 0 <= i < names.len() ==> plain_name(#[trigger] names[i]),
    ensures
        entries(""@, cmd) == group_entries(cmd.name@, names),
{
    lemma_top_entry(cmd.name@);
    lemma_leaf_entries(cmd.name@, cmd.subcommands@, names);
}

proof fn lemma_names_plain()
    ensures
        forall|i: int| 0 <= i < type_names().len() ==> plain_name(#[trigger] type_names()[i]),
        forall|i: int|
            0 <= i < type_names().push("by_isbn"@).len() ==> plain_name(
                #[trigger] type_names().push("by_isbn"@)[i],
            ),
        plain_name("add"@),
        plain_name("edit"@),
        plain_name("remove"@),
        plain_name("query"@),
        plain_name("listen"@),
        plain_name("exit"@),
{
    reveal_strlit("book");
    reveal_strlit("series");
    reveal_strlit("review");
    reveal_strlit("edition");
    reveal_strlit("edition-review");
    reveal_strlit("author");
    reveal_strlit("publisher");
    reveal_strlit("genre");
    reveal_strlit("mood");
    reveal_strlit("pace");
    reveal_strlit("language");
    reveal_strlit("progress");
    reveal_strlit("by_isbn");
    reveal_strlit("add");
    reveal_strlit("edit");
    reveal_strlit("remove");
    reveal_strlit("query");
    reveal_strlit("listen");
    reveal_strlit("exit");
    let t = type_names();
    assert forall|i: int| 0 <= i < t.len() implies plain_name(#[trigger] t[i]) by {
        if i == 0 {
        } else if i == 1 {
        } else if i == 2 {
        } else if i == 3 {
        } else if i == 4 {
        } else if i == 5 {
        } else if i == 6 {
        } else if i == 7 {
        } else if i == 8 {
        } else if i == 9 {
        } else if i == 10 {
        } else {
        }
    }
    let u = t.push("by_isbn"@);
    assert forall|i: int| 0 <= i < u.len() implies plain_name(#[trigger] u[i]) by {
        if i < t.len() {
            assert(u[i] == t[i]);
        }
    }
}

/// The commands of the kinds of record are leaves named by `type_names`.
proof fn lemma_kind_leaves(cmds: Seq<CommandSpec>)
    requires
        kind_commands(cmds),
    ensures
        cmds.len() == 12 ==> leaves_named(cmds, type_names()),
{
    assert forall|i: int| 0 <= i < 12 implies (#[trigger] cmds[i]).name@ == type_names()[i]
        && cmds[i].subcommands@.len() == 0 by {
        assert(leaf_command(cmds[i], type_names()[i], type_abouts()[i], type_aliases()[i]));
    }
}

/// The completion entries of the interactive prompt's commands.
proof fn lemma_repl_entries(cmds: Seq<CommandSpec>)
    requires
        cmds.len() == 6,
        common_commands(cmds),
        leaf_command(cmds[5], "exit"@, "Exit the repl"@, seq![]),
    ensures
        entries_of_all(""@, cmds) == repl_entries(),
{
    lemma_names_plain();
    lemma_kind_leaves(cmds[0].subcommands@);
    lemma_kind_leaves(cmds[1].subcommands@);
    lemma_kind_leaves(cmds[2].subcommands@);
    lemma_kind_leaves(cmds[3].subcommands@);
    let add = cmds[0].subcommands@;
    assert(leaves_named(add, type_names().push("by_isbn"@))) by {
        assert forall|i: int| 0 <= i < add.len() implies (#[trigger] add[i]).name@ == type_names().push(
            "by_isbn"@,
        )[i] && add[i].subcommands@.len() == 0 by {
            if i < 12 {
                assert(leaf_command(add[i], type_names()[i], type_abouts()[i], type_aliases()[i]));
            }
        }
    }
    lemma_group_entries(cmds[0], type_names().push("by_isbn"@));
    lemma_group_entries(cmds[1], type_names());
    lemma_group_entries(cmds[2], type_names());
    lemma_group_entries(cmds[3], type_names());
    lemma_group_entries(cmds[4], Seq::empty());
    lemma_group_entries(cmds[5], Seq::empty());
    let e = Seq::<CommandSpec>::empty();
    assert(entries_of_all(""@, e) =~= Seq::<Seq<char>>::empty());
    lemma_entries_push(""@, e, cmds[0]);
    lemma_entries_push(""@, e.push(cmds[0]), cmds[1]);
    lemma_entries_push(""@, e.push(cmds[0]).push(cmds[1]), cmds[2]);
    lemma_entries_push(""@, e.push(cmds[0]).push(cmds[1]).push(cmds[2]), cmds[3]);
    lemma_entries_push(""@, e.push(cmds[0]).push(cmds[1]).push(cmds[2]).push(cmds[3]), cmds[4]);
    lemma_entries_push(
        ""@,
        e.push(cmds[0]).push(cmds[1]).push(cmds[2]).push(cmds[3]).push(cmds[4]),
        cmds[5],
    );
    assert(e.push(cmds[0]).push(cmds[1]).push(cmds[2]).push(cmds[3]).push(cmds[4]).push(cmds[5])
        =~= cmds);
    assert(group_entries("listen"@, Seq::empty()) =~= seq!["listen"@]);
    assert(group_entries("exit"@, Seq::empty()) =~= seq!["exit"@]);
    assert(entries_of_all(""@, cmds) =~= repl_entries());
}

/// Every command the interactive prompt completes: the completion entries of
/// the prompt's commands, sorted.
pub fn generate_completions() -> (r: Vec<String>)
    ensures
        exists|found: Seq<String>|
            texts_of(found) == repl_entries() && r@ == unkeyed(stable_sorted(self_keyed(found))),
{
    let cmd = arg_parser_repl();
    proof {
        lemma_repl_entries(cmd.subcommands@);
    }
    completions_of(&cmd)
}

/// The words of a command line as `shlex::split` splits them, if it can.
pub uninterp spec fn shell_words(line: Seq<char>) -> Option<Seq<Seq<char>>>;

/// `shlex::split`: splits a line into words the way a POSIX shell would.
#[verifier::external_body]
fn shlex_split(line: &str) -> (r: Option<Vec<String>>)
    ensures
        r matches Some(w) ==> shell_words(line@) == Some(texts_of(w@)),
        r is None ==> shell_words(line@) is None,
{
    shlex::split(line)
}

/// Splits a command line into its words; `None` when the line is not valid
/// (an unclosed quote, for instance).
pub fn split_command(line: &str) -> (r: Option<Vec<String>>)
    ensures
        r matches Some(w) ==> shell_words(line@) == Some(texts_of(w@)),
        r is None ==> shell_words(line@) is None,
{
    shlex_split(line)
}

/// What a command of the interactive prompt asks for.
#[derive(Clone, Copy, Debug, PartialEq, Eq, Structural)]
pub enum Target {
    Book,
    Series,
    Review,
    Edition,
    EditionReview,
    Author,
    Genre,
    Mood,
    Pace,
    Language,
    Publisher,
    Progress,
}

/// The action a parsed command asks for.
#[derive(Clone, Copy, Debug, PartialEq, Eq, Structural)]
pub enum Action {
    Add(Target),
    Edit(Target),
    Remove(Target),
    Query(Target),
    Exit,
}

/// The target a kind name names.
pub open spec fn target_named(name: Seq<char>) -> Option<Target> {
    if name == "book"@ {
        Some(Target::Book)
    } else if name == "series"@ {
        Some(Target::Series)
    } else if name == "review"@ {
        Some(Target::Review)
    } else if name == "edition"@ {
        Some(Target::Edition)
    } else if name == "edition-review"@ {
        Some(Target::EditionReview)
    } else if name == "author"@ {
        Some(Target::Author)
    } else if name == "genre"@ {
        Some(Target::Genre)
    } else if name == "mood"@ {
        Some(Target::Mood)
    } else if name == "pace"@ {
        Some(Target::Pace)
    } else if name == "language"@ {
        Some(Target::Language)
    } else if name == "publisher"@ {
        Some(Target::Publisher)
    } else if name == "progress"@ {
        Some(Target::Progress)
    } else {
        None
    }
}

/// Whether two texts are equal.
fn str_eq(a: &str, b: &str) -> (r: bool)
    ensures
        r == (a@ == b@),
{
    let sa = a.to_string();
    let sb = b.to_string();
    sa == sb
}

/// The target named by a kind name.
pub fn target_from_name(name: &str) -> (r: Option<Target>)
    ensures
        r == target_named(name@),
{
    if str_eq(name, "book") {
        Some(Target::Book)
    } else if str_eq(name, "series") {
        Some(Target::Series)
    } else if str_eq(name, "review") {
        Some(Target::Review)
    } else if str_eq(name, "edition") {
        Some(Target::Edition)
    } else if str_eq(name, "edition-review") {
        Some(Target::EditionReview)
    } else if str_eq(name, "author") {
        Some(Target::Author)
    } else if str_eq(name, "genre") {
        Some(Target::Genre)
    } else if str_eq(name, "mood") {
        Some(Target::Mood)
    } else if str_eq(name, "pace") {
        Some(Target::Pace)
    } else if str_eq(name, "language") {
        Some(Target::Language)
    } else if str_eq(name, "publisher") {
        Some(Target::Publisher)
    } else if str_eq(name, "progress") {
        Some(Target::Progress)
    } else {
        None
    }
}

/// The action asked for by a command given by the name of its subcommand and
/// the name of that subcommand's own subcommand (as the parser reports them,
/// aliases resolved). `None` for commands the prompt does not carry out.
pub open spec fn action_named(verb: Seq<char>, noun: Option<Seq<char>>) -> Option<Action> {
    if verb == "exit"@ {
        Some(Action::Exit)
    } else {
        match noun {
            None => None,
            Some(n) => match target_named(n) {
                None => None,
                Some(t) => if verb == "add"@ {
                    Some(Action::Add(t))
                } else if verb == "edit"@ {
                    Some(Action::Edit(t))
                } else if verb == "remove"@ {
                    Some(Action::Remove(t))
                } else if verb == "query"@ {
                    Some(Action::Query(t))
                } else {
                    None
                },
            },
        }
    }
}

/// Decides what a parsed command asks for.
pub fn resolve_action(verb: &str, noun: Option<&str>) -> (r: Option<Action>)
    ensures
        r == action_named(
            verb@,
            match noun {
                Some(n) => Some(n@),
                None => None,
            },
        ),
{
    if str_eq(verb, "exit") {
        return Some(Action::Exit);
    }
    let n = match noun {
        None => {
            return None;
        },
        Some(n) => n,
    };
    let t = match target_from_name(n) {
        None => {
            return None;
        },
        Some(t) => t,
    };
    if str_eq(verb, "add") {
        Some(Action::Add(t))
    } else if str_eq(verb, "edit") {
        Some(Action::Edit(t))
    } else if str_eq(verb, "remove") {
        Some(Action::Remove(t))
    } else if str_eq(verb, "query") {
        Some(Action::Query(t))
    } else {
        None
    }
}


/// Each kind name resolves to the target of that same kind, and no two names
/// resolve to the same target.
pub proof fn lemma_kind_names_resolve_to_their_kind()
    ensures
        target_named("book"@) == Some(Target::Book),
        target_named("series"@) == Some(Target::Series),
        target_named("review"@) == Some(Target::Review),
        target_named("edition"@) == Some(Target::Edition),
        target_named("edition-review"@) == Some(Target::EditionReview),
        target_named("author"@) == Some(Target::Author),
        target_named("publisher"@) == Some(Target::Publisher),
        target_named("genre"@) == Some(Target::Genre),
        target_named("mood"@) == Some(Target::Mood),
        target_named("pace"@) == Some(Target::Pace),
        target_named("language"@) == Some(Target::Language),
        target_named("progress"@) == Some(Target::Progress),
        forall|a: Seq<char>, b: Seq<char>|
            #![trigger target_named(a), target_named(b)]
            target_named(a) is Some && target_named(a) == target_named(b) ==> a == b,
        forall|k: int| 0 <= k < 12 ==> target_named(#[trigger] type_names()[k]) is Some,
        forall|n: Seq<char>|
            #[trigger] action_named("add"@, Some(n)) == match target_named(n) {
                Some(t) => Some(Action::Add(t)),
                None => None,
            },
{
    reveal_strlit("book");
    reveal_strlit("series");
    reveal_strlit("review");
    reveal_strlit("edition");
    reveal_strlit("edition-review");
    reveal_strlit("author");
    reveal_strlit("publisher");
    reveal_strlit("genre");
    reveal_strlit("mood");
    reveal_strlit("pace");
    reveal_strlit("language");
    reveal_strlit("progress");
    reveal_strlit("exit");
    reveal_strlit("add");
    assert("add"@.len() == 3 && "exit"@.len() == 4);
    assert("book"@.len() == 4 && "book"@[0] == 'b');
    assert("series"@.len() == 6 && "series"@[0] == 's');
    assert("review"@.len() == 6 && "review"@[0] == 'r');
    assert("edition"@.len() == 7 && "edition"@[0] == 'e');
    assert("edition-review"@.len() == 14 && "edition-review"@[0] == 'e');
    assert("author"@.len() == 6 && "author"@[0] == 'a');
    assert("publisher"@.len() == 9 && "publisher"@[0] == 'p');
    assert("genre"@.len() == 5 && "genre"@[0] == 'g');
    assert("mood"@.len() == 4 && "mood"@[0] == 'm');
    assert("pace"@.len() == 4 && "pace"@[0] == 'p');
    assert("language"@.len() == 8 && "language"@[0] == 'l');
    assert("progress"@.len() == 8 && "progress"@[0] == 'p');
    let t = type_names();
    assert forall|k: int| 0 <= k < 12 implies target_named(#[trigger] t[k]) is Some by {
        if k == 0 {
        } else if k == 1 {
        } else if k == 2 {
        } else if k == 3 {
        } else if k == 4 {
        } else if k == 5 {
        } else if k == 6 {
        } else if k == 7 {
        } else if k == 8 {
        } else if k == 9 {
        } else if k == 10 {
        } else {
        }
    }
}

/// Every alias of a kind command starts with the first letter of the kind's
/// name (so `g` stands for genre and `m` for mood), and the named pairs are
/// these: book `b`, series `s`, review `r`, edition `e`, edition review
/// `er`, author `a`, publisher `pub`, genre `g`, mood `m`, pace none,
/// language `l`, progress `p`.
pub proof fn lemma_kind_aliases()
    ensures
        forall|k: int, i: int|
            0 <= k < 12 && 0 <= i < type_aliases()[k].len() ==> (#[trigger] type_aliases()[k][i]).len()
                > 0 && type_aliases()[k][i][0] == type_names()[k][0],
        type_names()[7] == "genre"@ && type_aliases()[7] == seq!["g"@],
        type_names()[8] == "mood"@ && type_aliases()[8] == seq!["m"@],
        type_names()[0] == "book"@ && type_aliases()[0] == seq!["b"@],
        type_names()[1] == "series"@ && type_aliases()[1] == seq!["s"@],
        type_names()[2] == "review"@ && type_aliases()[2] == seq!["r"@],
        type_names()[3] == "edition"@ && type_aliases()[3] == seq!["e"@],
        type_names()[4] == "edition-review"@ && type_aliases()[4] == seq!["er"@],
        type_names()[5] == "author"@ && type_aliases()[5] == seq!["a"@],
        type_names()[6] == "publisher"@ && type_aliases()[6] == seq!["pub"@],
        type_names()[9] == "pace"@ && type_aliases()[9].len() == 0,
        type_names()[10] == "language"@ && type_aliases()[10] == seq!["l"@],
        type_names()[11] == "progress"@ && type_aliases()[11] == seq!["p"@],
{
    reveal_strlit("book");
    reveal_strlit("series");
    reveal_strlit("review");
    reveal_strlit("edition");
    reveal_strlit("edition-review");
    reveal_strlit("author");
    reveal_strlit("publisher");
    reveal_strlit("genre");
    reveal_strlit("mood");
    reveal_strlit("pace");
    reveal_strlit("language");
    reveal_strlit("progress");
    reveal_strlit("b");
    reveal_strlit("s");
    reveal_strlit("r");
    reveal_strlit("e");
    reveal_strlit("er");
    reveal_strlit("a");
    reveal_strlit("pub");
    reveal_strlit("g");
    reveal_strlit("m");
    reveal_strlit("l");
    reveal_strlit("p");
    let n = type_names();
    let al = type_aliases();
    assert forall|k: int, i: int| 0 <= k < 12 && 0 <= i < al[k].len() implies (#[trigger] al[k][i]).len()
        > 0 && al[k][i][0] == n[k][0] by {
        if k == 0 {
        } else if k == 1 {
        } else if k == 2 {
        } else if k == 3 {
        } else if k == 4 {
        } else if k == 5 {
        } else if k == 6 {
        } else if k == 7 {
        } else if k == 8 {
        } else if k == 9 {
        } else if k == 10 {
        } else {
        }
    }
}

} // verus!
