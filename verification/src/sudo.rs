//! Commands that run through sudo, and how a shell reads them.
use vstd::prelude::*;
use vstd::string::*;

use crate::text;

verus! {

/// A text with each single quote written so that it can stand between single quotes.
pub open spec fn escaped(text: Seq<char>) -> Seq<char> {
    text::replaced(text, '\'', "'\"'\"'"@)
}

/// The line that runs a command through sudo.
pub open spec fn sudo_line(command: Seq<char>, sudo_password: Option<Seq<char>>) -> Seq<char> {
    match sudo_password {
        Some(password) => "printf '%s\\n' '"@ + escaped(password)
            + "' | sudo -p '' -S sh -c '"@ + escaped(command) + "'"@,
        None => "sudo -n sh -c '"@ + escaped(command) + "'"@,
    }
}

/// Build a sudo command string, piping the password via printf if provided.
pub fn build_sudo_command(command: &str, sudo_password: Option<&str>) -> (line: String)
    ensures
        line@ == sudo_line(
            command@,
            match sudo_password {
                Some(password) => Some(password@),
                None => None,
            },
        ),
{
    let escaped_cmd = text::replace_char(command, '\'', "'\"'\"'");
    match sudo_password {
        Some(password) => {
            let escaped_pwd = text::replace_char(password, '\'', "'\"'\"'");
            "printf '%s\\n' '".to_owned().concat(escaped_pwd.as_str()).concat(
                "' | sudo -p '' -S sh -c '",
            ).concat(escaped_cmd.as_str()).concat("'")
        },
        None => "sudo -n sh -c '".to_owned().concat(escaped_cmd.as_str()).concat("'"),
    }
}

/// Where a shell is in reading a line: outside quotes, or between quotes of a kind.
pub enum Quoting {
    Plain,
    Single,
    Double,
}

/// What a shell has made of the line so far.
#[verifier::ext_equal]
pub struct Reading {
    /// Whether all of it is of the kind that is modelled here.
    pub understood: bool,
    pub quoting: Quoting,
    /// The commands before the last pipe, each as its words.
    pub commands: Seq<Seq<Seq<char>>>,
    /// The words since then that are complete.
    pub words: Seq<Seq<char>>,
    /// The word that is being read.
    pub word: Option<Seq<char>>,
}

/// Whether a character stands for itself in a word outside quotes, whatever is round it.
pub open spec fn is_ordinary(c: char) -> bool {
    ||| 'a' <= c <= 'z'
    ||| 'A' <= c <= 'Z'
    ||| '0' <= c <= '9'
    ||| c == '-'
    ||| c == '_'
    ||| c == '.'
    ||| c == '/'
}

impl Reading {
    pub open spec fn start() -> Reading {
        Reading {
            understood: true,
            quoting: Quoting::Plain,
            commands: Seq::empty(),
            words: Seq::empty(),
            word: None,
        }
    }

    /// The word so far; a word that has not begun is empty.
    pub open spec fn so_far(self) -> Seq<char> {
        match self.word {
            Some(word) => word,
            None => Seq::empty(),
        }
    }

    /// The words so far, the one that is being read with them.
    pub open spec fn words_so_far(self) -> Seq<Seq<char>> {
        match self.word {
            Some(word) => self.words.push(word),
            None => self.words,
        }
    }

    /// What a shell makes of one more character. Between single quotes every character but the
    /// quote stands for itself; between double quotes all but `"`, `$`, `` ` `` and `\` do.
    /// Outside quotes, spaces part words and `|` parts commands.
    pub open spec fn after(self, c: char) -> Reading {
        match self.quoting {
            Quoting::Single => if c == '\'' {
                Reading { quoting: Quoting::Plain, ..self }
            } else {
                Reading { word: Some(self.so_far().push(c)), ..self }
            },
            Quoting::Double => if c == '"' {
                Reading { quoting: Quoting::Plain, ..self }
            } else if c == '$' || c == '`' || c == '\\' {
                Reading { understood: false, ..self }
            } else {
                Reading { word: Some(self.so_far().push(c)), ..self }
            },
            Quoting::Plain => if c == '\'' {
                Reading { quoting: Quoting::Single, word: Some(self.so_far()), ..self }
            } else if c == '"' {
                Reading { quoting: Quoting::Double, word: Some(self.so_far()), ..self }
            } else if c == ' ' {
                Reading { words: self.words_so_far(), word: None, ..self }
            } else if c == '|' {
                Reading {
                    commands: self.commands.push(self.words_so_far()),
                    words: Seq::empty(),
                    word: None,
                    ..self
                }
            } else if is_ordinary(c) {
                Reading { word: Some(self.so_far().push(c)), ..self }
            } else {
                Reading { understood: false, ..self }
            },
        }
    }

    /// What a shell makes of more of the line.
    pub open spec fn after_all(self, line: Seq<char>) -> Reading
        decreases line.len(),
    {
        if line.len() == 0 {
            self
        } else {
            self.after_all(line.drop_last()).after(line.last())
        }
    }
}

/// The commands of a pipeline, each as its words, as a shell reads them off a line; `None` for a
/// line that ends between quotes or holds what is not modelled here.
pub open spec fn pipeline(line: Seq<char>) -> Option<Seq<Seq<Seq<char>>>> {
    let reading = Reading::start().after_all(line);
    if reading.understood && reading.quoting is Plain {
        Some(reading.commands.push(reading.words_so_far()))
    } else {
        None
    }
}

proof fn lemma_after_concat(reading: Reading, a: Seq<char>, b: Seq<char>)
    ensures
        reading.after_all(a + b) == reading.after_all(a).after_all(b),
    decreases b.len(),
{
    if b.len() == 0 {
        assert(a + b =~= a);
    } else {
        lemma_after_concat(reading, a, b.drop_last());
        assert((a + b).drop_last() =~= a + b.drop_last());
        assert((a + b).last() == b.last());
    }
}

/// Between single quotes, an escaped text is read as the text itself.
proof fn lemma_escaped(reading: Reading, text: Seq<char>)
    requires
        reading.quoting is Single,
        reading.word is Some,
    ensures
        reading.after_all(escaped(text)) == (Reading {
            word: Some(reading.so_far() + text),
            ..reading
        }),
    decreases text.len(),
{
    if text.len() == 0 {
        assert(reading.so_far() + text =~= reading.so_far());
    } else {
        lemma_escaped(reading, text.drop_last());
        let before = reading.after_all(escaped(text.drop_last()));
        assert(reading.so_far() + text =~= (reading.so_far() + text.drop_last()).push(text.last()));
        if text.last() == '\'' {
            reveal_strlit("'\"'\"'");
            let quote = "'\"'\"'"@;
            assert(quote =~= seq!['\'', '"', '\'', '"', '\'']);
            lemma_after_concat(reading, escaped(text.drop_last()), quote);
            reveal_with_fuel(Reading::after_all, 6);
            assert(quote.drop_last() =~= seq!['\'', '"', '\'', '"']);
            assert(quote.drop_last().drop_last() =~= seq!['\'', '"', '\'']);
            assert(quote.drop_last().drop_last().drop_last() =~= seq!['\'', '"']);
            assert(quote.drop_last().drop_last().drop_last().drop_last() =~= seq!['\'']);
            assert(quote.drop_last().drop_last().drop_last().drop_last().drop_last() =~= Seq::<
                char,
            >::empty());
        } else {
            let more = escaped(text.drop_last()).push(text.last());
            assert(more.drop_last() =~= escaped(text.drop_last()));
        }
    }
}

proof fn lemma_after_one(reading: Reading, c: char)
    ensures
        reading.after_all(seq![c]) == reading.after(c),
{
    assert(seq![c].drop_last() =~= Seq::<char>::empty());
    reveal_with_fuel(Reading::after_all, 2);
}

/// Outside quotes, ordinary characters make up a word.
proof fn lemma_ordinary(reading: Reading, word: Seq<char>)
    requires
        reading.quoting is Plain,
        reading.word is None,
        word.len() > 0,
        forall|i: int| 0 <= i < word.len() ==> is_ordinary(#[trigger] word[i]),
    ensures
        reading.after_all(word) == (Reading { word: Some(word), ..reading }),
    decreases word.len(),
{
    if word.len() == 1 {
        assert(word =~= seq![word[0]]);
        lemma_after_one(reading, word[0]);
        assert(Seq::<char>::empty().push(word[0]) =~= word);
    } else {
        lemma_ordinary(reading, word.drop_last());
        assert(word.drop_last().push(word.last()) =~= word);
        assert(is_ordinary(word[word.len() - 1]));
    }
}

/// Outside quotes, ordinary characters and a space make up a complete word.
proof fn lemma_word(reading: Reading, word: Seq<char>)
    requires
        reading.quoting is Plain,
        reading.word is None,
        word.len() > 0,
        forall|i: int| 0 <= i < word.len() ==> is_ordinary(#[trigger] word[i]),
    ensures
        reading.after_all(word + seq![' ']) == (Reading {
            words: reading.words.push(word),
            ..reading
        }),
{
    lemma_ordinary(reading, word);
    lemma_after_concat(reading, word, seq![' ']);
    lemma_after_one(reading.after_all(word), ' ');
}

/// What a shell makes of the words `sh -c`, a quoted text and the end of the line.
proof fn lemma_sh_c(reading: Reading, command: Seq<char>)
    requires
        reading.quoting is Plain,
        reading.word is None,
    ensures
        reading.after_all("sh -c '"@ + escaped(command) + "'"@) == (Reading {
            words: reading.words.push("sh"@).push("-c"@),
            word: Some(command),
            ..reading
        }),
{
    reveal_strlit("sh -c '");
    reveal_strlit("sh");
    reveal_strlit("-c");
    reveal_strlit("'");
    let sh = "sh"@ + seq![' '];
    let dash_c = "-c"@ + seq![' '];
    let quote = seq!['\''];
    assert("sh -c '"@ =~= sh + dash_c + quote);
    assert("'"@ =~= quote);
    let r1 = reading.after_all(sh);
    lemma_word(reading, "sh"@);
    let r2 = r1.after_all(dash_c);
    lemma_word(r1, "-c"@);
    let r3 = r2.after_all(quote);
    lemma_after_one(r2, '\'');
    let r4 = r3.after_all(escaped(command));
    lemma_escaped(r3, command);
    assert(Seq::<char>::empty() + command =~= command);
    lemma_after_one(r4, '\'');
    lemma_after_concat(reading, sh, dash_c);
    lemma_after_concat(reading, sh + dash_c, quote);
    lemma_after_concat(reading, sh + dash_c + quote, escaped(command));
    lemma_after_concat(reading, sh + dash_c + quote + escaped(command), quote);
}

/// Without a password, a shell reads the line as one command: `sudo -n sh -c` and, as a single
/// word, the very command that was given, whatever characters it holds.
pub proof fn sudo_runs_the_command(command: Seq<char>)
    ensures
        pipeline(sudo_line(command, None)) == Some(
            seq![seq!["sudo"@, "-n"@, "sh"@, "-c"@, command]],
        ),
{
    reveal_strlit("sudo -n sh -c '");
    reveal_strlit("sh -c '");
    reveal_strlit("sudo");
    reveal_strlit("-n");
    let sudo = "sudo"@ + seq![' '];
    let dash_n = "-n"@ + seq![' '];
    let rest = "sh -c '"@ + escaped(command) + "'"@;
    assert(sudo_line(command, None) =~= sudo + dash_n + rest);
    let r0 = Reading::start();
    lemma_word(r0, "sudo"@);
    let r1 = r0.after_all(sudo);
    lemma_word(r1, "-n"@);
    let r2 = r1.after_all(dash_n);
    lemma_sh_c(r2, command);
    lemma_after_concat(r0, sudo, dash_n);
    lemma_after_concat(r0, sudo + dash_n, rest);
    let end = r0.after_all(sudo_line(command, None));
    assert(end.words_so_far() =~= seq!["sudo"@, "-n"@, "sh"@, "-c"@, command]);
    assert(pipeline(sudo_line(command, None))->0 =~= seq![
        seq!["sudo"@, "-n"@, "sh"@, "-c"@, command],
    ]);
}

/// With a password, a shell reads the line as a pipe of two commands: `printf` with the very
/// password as its last word, and `sudo -p '' -S sh -c` with the very command as its last word,
/// whatever characters they hold.
pub proof fn sudo_passes_the_password(command: Seq<char>, password: Seq<char>)
    ensures
        pipeline(sudo_line(command, Some(password))) == Some(
            seq![
                seq!["printf"@, "%s\\n"@, password],
                seq!["sudo"@, "-p"@, ""@, "-S"@, "sh"@, "-c"@, command],
            ],
        ),
{
    reveal_strlit("printf '%s\\n' '");
    reveal_strlit("' | sudo -p '' -S sh -c '");
    reveal_strlit("sh -c '");
    reveal_strlit("printf");
    reveal_strlit("%s\\n");
    reveal_strlit("sudo");
    reveal_strlit("-p");
    reveal_strlit("");
    reveal_strlit("-S");
    let line = sudo_line(command, Some(password));
    let printf = "printf"@ + seq![' '];
    let format = "%s\\n"@;
    let quote = seq!['\''];
    let space = seq![' '];
    let bar = seq!['|'];
    let sudo = "sudo"@ + seq![' '];
    let dash_p = "-p"@ + seq![' '];
    let dash_s = "-S"@ + seq![' '];
    let rest = "sh -c '"@ + escaped(command) + "'"@;
    assert("printf '%s\\n' '"@ =~= printf + quote + format + quote + space + quote);
    assert("' | sudo -p '' -S sh -c '"@ =~= quote + space + bar + space + sudo + dash_p + quote
        + quote + space + dash_s + "sh -c '"@);
    assert(""@ =~= Seq::<char>::empty());
    assert(format =~= seq!['%', 's', '\\', 'n']);

    let r0 = Reading::start();
    lemma_word(r0, "printf"@);
    let r1 = r0.after_all(printf);
    lemma_after_one(r1, '\'');
    let r2 = r1.after_all(quote);
    // `%s\n` holds no single quote, so it is its own escape.
    assert(escaped(format) =~= format) by {
        reveal_with_fuel(text::replaced, 5);
        assert(format.drop_last() =~= seq!['%', 's', '\\']);
        assert(format.drop_last().drop_last() =~= seq!['%', 's']);
        assert(format.drop_last().drop_last().drop_last() =~= seq!['%']);
        assert(format.drop_last().drop_last().drop_last().drop_last() =~= Seq::<char>::empty());
    }
    lemma_escaped(r2, format);
    let r3 = r2.after_all(format);
    assert(Seq::<char>::empty() + format =~= format);
    lemma_after_one(r3, '\'');
    let r4 = r3.after_all(quote);
    lemma_after_one(r4, ' ');
    let r5 = r4.after_all(space);
    lemma_after_one(r5, '\'');
    let r6 = r5.after_all(quote);
    lemma_escaped(r6, password);
    let r7 = r6.after_all(escaped(password));
    assert(Seq::<char>::empty() + password =~= password);
    lemma_after_one(r7, '\'');
    let r8 = r7.after_all(quote);
    lemma_after_one(r8, ' ');
    let r9 = r8.after_all(space);
    lemma_after_one(r9, '|');
    let r10 = r9.after_all(bar);
    lemma_after_one(r10, ' ');
    let r11 = r10.after_all(space);
    lemma_word(r11, "sudo"@);
    let r12 = r11.after_all(sudo);
    lemma_word(r12, "-p"@);
    let r13 = r12.after_all(dash_p);
    lemma_after_one(r13, '\'');
    let r14 = r13.after_all(quote);
    lemma_after_one(r14, '\'');
    let r15 = r14.after_all(quote);
    lemma_after_one(r15, ' ');
    let r16 = r15.after_all(space);
    lemma_word(r16, "-S"@);
    let r17 = r16.after_all(dash_s);
    lemma_sh_c(r17, command);

    let l1 = printf;
    let l2 = l1 + quote;
    let l3 = l2 + format;
    let l4 = l3 + quote;
    let l5 = l4 + space;
    let l6 = l5 + quote;
    let l7 = l6 + escaped(password);
    let l8 = l7 + quote;
    let l9 = l8 + space;
    let l10 = l9 + bar;
    let l11 = l10 + space;
    let l12 = l11 + sudo;
    let l13 = l12 + dash_p;
    let l14 = l13 + quote;
    let l15 = l14 + quote;
    let l16 = l15 + space;
    let l17 = l16 + dash_s;
    lemma_after_concat(r0, l1, quote);
    lemma_after_concat(r0, l2, format);
    lemma_after_concat(r0, l3, quote);
    lemma_after_concat(r0, l4, space);
    lemma_after_concat(r0, l5, quote);
    lemma_after_concat(r0, l6, escaped(password));
    lemma_after_concat(r0, l7, quote);
    lemma_after_concat(r0, l8, space);
    lemma_after_concat(r0, l9, bar);
    lemma_after_concat(r0, l10, space);
    lemma_after_concat(r0, l11, sudo);
    lemma_after_concat(r0, l12, dash_p);
    lemma_after_concat(r0, l13, quote);
    lemma_after_concat(r0, l14, quote);
    lemma_after_concat(r0, l15, space);
    lemma_after_concat(r0, l16, dash_s);
    lemma_after_concat(r0, l17, rest);
    assert(line =~= l17 + rest);
    let end = r0.after_all(line);
    assert(end.commands =~= seq![seq!["printf"@, "%s\\n"@, password]]) by {
        assert(r8.words_so_far() =~= seq!["printf"@, "%s\\n"@, password]);
    }
    assert(end.words_so_far() =~= seq!["sudo"@, "-p"@, ""@, "-S"@, "sh"@, "-c"@, command]);
    assert(pipeline(line)->0 =~= seq![
        seq!["printf"@, "%s\\n"@, password],
        seq!["sudo"@, "-p"@, ""@, "-S"@, "sh"@, "-c"@, command],
    ]);
}

/// The line that runs a command through sudo is the command between single quotes, each of its own
/// quotes taken out of them, after what sudo is called with; a password comes before it, quoted
/// alike, for sudo to read.
pub proof fn the_line_holds_the_command(command: Seq<char>, password: Seq<char>)
    ensures
        ({
            let quote = "'\"'\"'"@;
            let quoted = text::replaced(command, '\'', quote);
            let secret = text::replaced(password, '\'', quote);
            &&& sudo_line(command, None) == "sudo -n sh -c '"@ + quoted + "'"@
            &&& sudo_line(command, Some(password)) == "printf '%s\\n' '"@ + secret
                + "' | sudo -p '' -S sh -c '"@ + quoted + "'"@
        }),
{
}

/// Between single quotes, a shell reads every character but the quote as itself: a text without
/// one is one word.
pub proof fn quoted_text_is_one_word(text: Seq<char>)
    requires
        !text.contains('\''),
    ensures
        pipeline(seq!['\''] + text + seq!['\'']) == Some(seq![seq![text]]),
{
    let open = seq!['\''];
    let start = Reading::start();
    lemma_after_one(start, '\'');
    lemma_quoted(start.after('\''), text);
    lemma_after_concat(start, open, text);
    lemma_after_concat(start, open + text, open);
    let inside = start.after_all(open + text);
    lemma_after_one(inside, '\'');
    assert(Seq::<char>::empty() + text =~= text);
    let end = start.after_all(open + text + open);
    assert(end.words_so_far() =~= seq![text]);
    assert(end.commands.push(end.words_so_far()) =~= seq![seq![text]]);
}

proof fn lemma_quoted(reading: Reading, text: Seq<char>)
    requires
        reading.quoting is Single,
        reading.word is Some,
        !text.contains('\''),
    ensures
        reading.after_all(text) == (Reading { word: Some(reading.word->0 + text), ..reading }),
    decreases text.len(),
{
    if text.len() == 0 {
        assert(reading.word->0 + text =~= reading.word->0);
    } else {
        let fewer = text.drop_last();
        assert(text[text.len() - 1] != '\'');
        assert(!fewer.contains('\'')) by {
            if fewer.contains('\'') {
                let i = fewer.index_of('\'');
                assert(text[i] == '\'');
            }
        }
        lemma_quoted(reading, fewer);
        assert(reading.word->0 + text =~= (reading.word->0 + fewer).push(text.last()));
    }
}

} // verus!
