use super::parameter::Parameter;
use crate::dataset::data_value::{DataValue, ValueView};
use crate::text::{
    append_chars, append_decimal, chars_of, decimal_digits, lemma_decimal_digits_distinct, string_of,
};
use vstd::prelude::*;

verus! {

/// What the text of a command is.
#[derive(Clone, Copy, Debug, PartialEq, Eq, Structural)]
pub enum CommandType {
    /// SQL text, in which parameters may stand by name.
    Text,
    /// The name of a stored procedure.
    StoredProcedure,
}

/// A command as the caller states it: its text, and its parameters in the
/// order in which they are bound.
#[derive(Debug)]
pub struct Command {
    pub text: String,
    pub command_type: CommandType,
    pub parameters: Vec<Parameter>,
}

impl Clone for Command {
    fn clone(&self) -> (copy: Command)
        ensures
            copy.text@ == self.text@,
            copy.command_type == self.command_type,
            copy.names() == self.names(),
            copy.values() == self.values(),
    {
        let copy = Command {
            text: self.text.clone(),
            command_type: self.command_type,
            parameters: self.parameters.clone(),
        };
        assert(copy.names() =~= self.names());
        assert(copy.values() =~= self.values());
        copy
    }
}

/// A character that can continue an identifier: an ASCII letter, an ASCII
/// digit or the underscore.
pub open spec fn is_identifier_char(c: char) -> bool {
    ||| 'a' <= c <= 'z'
    ||| 'A' <= c <= 'Z'
    ||| '0' <= c <= '9'
    ||| c == '_'
}

/// An ASCII digit.
pub open spec fn is_digit(c: char) -> bool {
    '0' <= c <= '9'
}

/// Whether `needle` stands in `haystack` at `at`.
pub open spec fn occurs_at(haystack: Seq<char>, needle: Seq<char>, at: int) -> bool {
    &&& 0 <= at
    &&& at + needle.len() <= haystack.len()
    &&& haystack.subrange(at, at + needle.len()) == needle
}

/// Whether `needle` stands in `haystack` at `at` as a whole token: it is not
/// empty, and what follows it, if anything, cannot continue an identifier.
pub open spec fn token_at(haystack: Seq<char>, needle: Seq<char>, at: int) -> bool {
    &&& needle.len() > 0
    &&& occurs_at(haystack, needle, at)
    &&& (at + needle.len() < haystack.len() ==> !is_identifier_char(haystack[at + needle.len()]))
}

/// `haystack` from `from` on, read once from left to right, with each token
/// `needle` replaced by `replacement`. What was put in is not read again.
pub open spec fn replaced_from(
    haystack: Seq<char>,
    needle: Seq<char>,
    replacement: Seq<char>,
    from: int,
) -> Seq<char>
    decreases haystack.len() - from,
{
    if from < 0 || from >= haystack.len() {
        Seq::<char>::empty()
    } else if token_at(haystack, needle, from) {
        replacement + replaced_from(haystack, needle, replacement, from + needle.len())
    } else {
        seq![haystack[from]] + replaced_from(haystack, needle, replacement, from + 1)
    }
}

/// `haystack` with each token `needle` replaced by `replacement`.
pub open spec fn replaced(haystack: Seq<char>, needle: Seq<char>, replacement: Seq<char>) -> Seq<
    char,
> {
    replaced_from(haystack, needle, replacement, 0)
}

/// A parameter's name without its leading sigil, if it has one.
pub open spec fn without_sigil(name: Seq<char>) -> Seq<char> {
    if name.len() > 0 && name[0] == '@' {
        name.skip(1)
    } else {
        name
    }
}

/// Whether a name, without its sigil, is already a positional placeholder:
/// `P` and then digits only, at least one.
pub open spec fn is_positional(name: Seq<char>) -> bool {
    &&& name.len() >= 2
    &&& name[0] == 'P'
    &&& forall|i: int| 1 <= i < name.len() ==> is_digit(#[trigger] name[i])
}

/// The backend's placeholder for the parameter at `position`, counted from 1.
pub open spec fn placeholder(position: nat) -> Seq<char> {
    seq!['@', 'P'] + decimal_digits(position)
}

/// The token under which a parameter stands in SQL text: the sigil and the
/// name.
pub open spec fn token(name: Seq<char>) -> Seq<char> {
    seq!['@'] + without_sigil(name)
}

/// `sql` after the first `count` parameters were rewritten, one after the
/// other in their order: each token of a parameter becomes the placeholder of
/// its position, except for a parameter whose name is positional already.
pub open spec fn rewritten(sql: Seq<char>, names: Seq<Seq<char>>, count: nat) -> Seq<char>
    decreases count,
{
    if count == 0 {
        sql
    } else {
        let before = rewritten(sql, names, (count - 1) as nat);
        let name = names[count - 1];
        if is_positional(without_sigil(name)) {
            before
        } else {
            replaced(before, token(name), placeholder(count))
        }
    }
}

/// The argument list of a procedure call for the first `count` parameters:
/// `@name = @Pn` for each, separated by a comma and a space.
pub open spec fn arguments(names: Seq<Seq<char>>, count: nat) -> Seq<char>
    decreases count,
{
    if count == 0 {
        Seq::<char>::empty()
    } else {
        let separator = if count == 1 {
            Seq::<char>::empty()
        } else {
            seq![',', ' ']
        };
        arguments(names, (count - 1) as nat) + separator + token(names[count - 1]) + seq![
            ' ',
            '=',
            ' ',
        ] + placeholder(count)
    }
}

/// The call of the procedure `name` with the parameters `names`.
pub open spec fn procedure_call(name: Seq<char>, names: Seq<Seq<char>>) -> Seq<char> {
    if names.len() == 0 {
        seq!['E', 'X', 'E', 'C', ' '] + name
    } else {
        seq!['E', 'X', 'E', 'C', ' '] + name + seq![' '] + arguments(names, names.len())
    }
}

/// Text in which `needle` stands nowhere as a whole token passes through
/// unchanged.
pub proof fn law_replaced_without_token(
    haystack: Seq<char>,
    needle: Seq<char>,
    replacement: Seq<char>,
)
    requires
        forall|at: int| !token_at(haystack, needle, at),
    ensures
        replaced(haystack, needle, replacement) == haystack,
{
    lemma_replaced_from_without_token(haystack, needle, replacement, 0);
    assert(haystack.skip(0) =~= haystack);
}

proof fn lemma_replaced_from_without_token(
    haystack: Seq<char>,
    needle: Seq<char>,
    replacement: Seq<char>,
    from: int,
)
    requires
        0 <= from <= haystack.len(),
        forall|at: int| !token_at(haystack, needle, at),
    ensures
        replaced_from(haystack, needle, replacement, from) == haystack.skip(from),
    decreases haystack.len() - from,
{
    if from < haystack.len() {
        lemma_replaced_from_without_token(haystack, needle, replacement, from + 1);
        assert(!token_at(haystack, needle, from));
        assert(haystack.skip(from) =~= seq![haystack[from]] + haystack.skip(from + 1));
    } else {
        assert(haystack.skip(from) =~= Seq::<char>::empty());
    }
}

/// What comes out for the text from `from` on is what comes out for that
/// text taken alone: nothing before a place bears on what happens after it.
pub proof fn lemma_replaced_from_later(
    haystack: Seq<char>,
    needle: Seq<char>,
    replacement: Seq<char>,
    from: int,
    at: int,
)
    requires
        0 <= from,
        0 <= at,
        from + at <= haystack.len(),
    ensures
        replaced_from(haystack, needle, replacement, from + at) == replaced_from(
            haystack.skip(from),
            needle,
            replacement,
            at,
        ),
    decreases haystack.len() - from - at,
{
    let tail = haystack.skip(from);
    if from + at < haystack.len() {
        assert(token_at(haystack, needle, from + at) == token_at(tail, needle, at)) by {
            if at + needle.len() <= tail.len() {
                assert(tail.subrange(at, at + needle.len()) =~= haystack.subrange(
                    from + at,
                    from + at + needle.len(),
                ));
            }
        }
        if token_at(haystack, needle, from + at) {
            lemma_replaced_from_later(haystack, needle, replacement, from, at + needle.len());
        } else {
            lemma_replaced_from_later(haystack, needle, replacement, from, at + 1);
        }
    }
}

proof fn lemma_replaced_up_to_token(
    haystack: Seq<char>,
    needle: Seq<char>,
    replacement: Seq<char>,
    from: int,
    at: int,
)
    requires
        0 <= from <= at <= haystack.len(),
        forall|k: int| from <= k < at ==> !token_at(haystack, needle, k),
    ensures
        replaced_from(haystack, needle, replacement, from) == haystack.subrange(from, at)
            + replaced_from(haystack, needle, replacement, at),
    decreases at - from,
{
    if from < at {
        lemma_replaced_up_to_token(haystack, needle, replacement, from + 1, at);
        assert(!token_at(haystack, needle, from));
        assert(haystack.subrange(from, at) =~= seq![haystack[from]] + haystack.subrange(
            from + 1,
            at,
        ));
        assert(seq![haystack[from]] + (haystack.subrange(from + 1, at) + replaced_from(
            haystack,
            needle,
            replacement,
            at,
        )) =~= haystack.subrange(from, at) + replaced_from(haystack, needle, replacement, at));
    } else {
        assert(haystack.subrange(from, at) + replaced_from(haystack, needle, replacement, at)
            =~= replaced_from(haystack, needle, replacement, at));
    }
}

/// The first token in the text is replaced: what stands before it stays,
/// the replacement takes its place, and what stands behind it is treated in
/// the same way, without a look back at what was put in.
pub proof fn law_first_token_is_replaced(
    haystack: Seq<char>,
    needle: Seq<char>,
    replacement: Seq<char>,
    at: int,
)
    requires
        token_at(haystack, needle, at),
        forall|k: int| 0 <= k < at ==> !token_at(haystack, needle, k),
    ensures
        replaced(haystack, needle, replacement) == haystack.take(at) + replacement + replaced(
            haystack.skip(at + needle.len()),
            needle,
            replacement,
        ),
{
    lemma_replaced_up_to_token(haystack, needle, replacement, 0, at);
    lemma_replaced_from_later(haystack, needle, replacement, at + needle.len(), 0);
    assert(haystack.take(at) =~= haystack.subrange(0, at));
    assert(haystack.take(at) + (replacement + replaced(
        haystack.skip(at + needle.len()),
        needle,
        replacement,
    )) =~= haystack.take(at) + replacement + replaced(
        haystack.skip(at + needle.len()),
        needle,
        replacement,
    ));
}

/// A text command whose parameters all have positional names is sent as it
/// was written.
pub proof fn law_positional_names_pass_through(sql: Seq<char>, names: Seq<Seq<char>>, count: nat)
    requires
        count <= names.len(),
        forall|i: int| 0 <= i < count ==> is_positional(without_sigil(#[trigger] names[i])),
    ensures
        rewritten(sql, names, count) == sql,
    decreases count,
{
    if count > 0 {
        law_positional_names_pass_through(sql, names, (count - 1) as nat);
        assert(is_positional(without_sigil(names[count - 1])));
    }
}

/// A text command in which no parameter stands as a token is sent as it was
/// written.
pub proof fn law_unmatched_names_pass_through(sql: Seq<char>, names: Seq<Seq<char>>, count: nat)
    requires
        count <= names.len(),
        forall|i: int, at: int| 0 <= i < count ==> !#[trigger] token_at(sql, token(names[i]), at),
    ensures
        rewritten(sql, names, count) == sql,
    decreases count,
{
    if count > 0 {
        law_unmatched_names_pass_through(sql, names, (count - 1) as nat);
        let needle = token(names[count - 1]);
        assert forall|at: int| !token_at(sql, needle, at) by {
            assert(!token_at(sql, token(names[count - 1]), at));
        }
        law_replaced_without_token(sql, needle, placeholder(count));
    }
}

/// The call of a procedure with one parameter: `EXEC`, the procedure, and
/// the parameter bound to the first placeholder.
pub proof fn law_call_with_one_parameter(procedure: Seq<char>, name: Seq<char>)
    ensures
        procedure_call(procedure, seq![name]) == seq!['E', 'X', 'E', 'C', ' '] + procedure + seq![
            ' ',
            '@',
        ] + without_sigil(name) + seq![' ', '=', ' ', '@', 'P', '1'],
{
    reveal_with_fuel(arguments, 2);
    assert(decimal_digits(1) =~= seq!['1']);
    assert(procedure_call(procedure, seq![name]) =~= seq!['E', 'X', 'E', 'C', ' '] + procedure
        + seq![' ', '@'] + without_sigil(name) + seq![' ', '=', ' ', '@', 'P', '1']);
}

/// A name that stands in the text only as the beginning of longer names is
/// left alone everywhere: `@id` changes nothing in a text that holds only
/// `@id2`.
pub proof fn law_longer_names_are_kept(
    haystack: Seq<char>,
    needle: Seq<char>,
    replacement: Seq<char>,
)
    requires
        forall|at: int| #[trigger]
            occurs_at(haystack, needle, at) ==> at + needle.len() < haystack.len()
                && is_identifier_char(haystack[at + needle.len()]),
    ensures
        replaced(haystack, needle, replacement) == haystack,
{
    assert forall|at: int| !token_at(haystack, needle, at) by {
        if occurs_at(haystack, needle, at) {
            assert(is_identifier_char(haystack[at + needle.len()]));
        }
    }
    law_replaced_without_token(haystack, needle, replacement);
}

/// Parameters at different positions get different placeholders.
pub proof fn law_placeholders_distinct(first: nat, second: nat)
    requires
        first != second,
    ensures
        placeholder(first) != placeholder(second),
{
    if placeholder(first) == placeholder(second) {
        assert(placeholder(first).skip(2) =~= decimal_digits(first));
        assert(placeholder(second).skip(2) =~= decimal_digits(second));
        lemma_decimal_digits_distinct(first, second);
    }
}

impl Command {
    /// The names of the parameters, in their order.
    pub open spec fn names(&self) -> Seq<Seq<char>> {
        self.parameters@.map_values(|parameter: Parameter| parameter.name@)
    }

    /// The values of the parameters, in their order.
    pub open spec fn values(&self) -> Seq<ValueView> {
        self.parameters@.map_values(|parameter: Parameter| parameter.value@)
    }

    /// The SQL text that is sent for this command.
    pub open spec fn sql(&self) -> Seq<char> {
        match self.command_type {
            CommandType::Text => rewritten(self.text@, self.names(), self.names().len()),
            CommandType::StoredProcedure => procedure_call(self.text@, self.names()),
        }
    }

    /// A command of SQL text, without parameters.
    pub fn query(text: &str) -> (command: Command)
        ensures
            command.text@ == text@,
            command.command_type == CommandType::Text,
            command.parameters@.len() == 0,
    {
        Command { text: text.to_owned(), command_type: CommandType::Text, parameters: Vec::new() }
    }

    /// A call of the stored procedure `name`, without parameters.
    pub fn stored_procedure(name: &str) -> (command: Command)
        ensures
            command.text@ == name@,
            command.command_type == CommandType::StoredProcedure,
            command.parameters@.len() == 0,
    {
        Command {
            text: name.to_owned(),
            command_type: CommandType::StoredProcedure,
            parameters: Vec::new(),
        }
    }

    /// The command with `param` added behind its parameters.
    pub fn with_param(self, param: Parameter) -> (command: Command)
        ensures
            command.text == self.text,
            command.command_type == self.command_type,
            command.parameters@ == self.parameters@.push(param),
    {
        let mut command = self;
        command.parameters.push(param);
        command
    }

    /// The SQL text to send, and the values to bind: one for each parameter,
    /// in the order of the parameters, whatever the kind of the command.
    pub fn build(&self) -> (built: (String, Vec<DataValue>))
        ensures
            built.0@ == self.sql(),
            built.1@.len() == self.parameters@.len(),
            forall|i: int|
                0 <= i < built.1@.len() ==> (#[trigger] built.1@[i])@ == self.parameters@[i].value@,
    {
        let values = self.bound_values();
        let sql = match self.command_type {
            CommandType::Text => self.rewritten_text(),
            CommandType::StoredProcedure => self.call_text(),
        };
        (sql, values)
    }

    fn bound_values(&self) -> (values: Vec<DataValue>)
        ensures
            values@.len() == self.parameters@.len(),
            forall|i: int|
                0 <= i < values@.len() ==> (#[trigger] values@[i])@ == self.parameters@[i].value@,
    {
        let mut values: Vec<DataValue> = Vec::new();
        let mut i: usize = 0;
        while i < self.parameters.len()
            invariant
                i <= self.parameters.len(),
                values.len() == i,
                forall|j: int| 0 <= j < i ==> (#[trigger] values[j])@ == self.parameters[j].value@,
            decreases self.parameters.len() - i,
        {
            values.push(self.parameters[i].value.clone());
            i += 1;
        }
        values
    }

    fn rewritten_text(&self) -> (sql: String)
        ensures
            sql@ == rewritten(self.text@, self.names(), self.names().len()),
    {
        let mut sql = chars_of(self.text.as_str());
        let mut i: usize = 0;
        while i < self.parameters.len()
            invariant
                i <= self.parameters.len(),
                sql@ == rewritten(self.text@, self.names(), i as nat),
            decreases self.parameters.len() - i,
        {
            let name = chars_of(self.parameters[i].name.as_str());
            assert(self.names()[i as int] == name@);
            if !positional(&name) {
                let needle = token_of(&name);
                let replacement = placeholder_of(i + 1);
                sql = replace_chars(&sql, &needle, &replacement);
            }
            i += 1;
        }
        string_of(&sql)
    }

    fn call_text(&self) -> (sql: String)
        ensures
            sql@ == procedure_call(self.text@, self.names()),
    {
        let mut sql: Vec<char> = Vec::new();
        sql.push('E');
        sql.push('X');
        sql.push('E');
        sql.push('C');
        sql.push(' ');
        let name = chars_of(self.text.as_str());
        append_chars(&mut sql, &name);
        if self.parameters.len() > 0 {
            sql.push(' ');
            let ghost head = sql@;
            assert(head =~= seq!['E', 'X', 'E', 'C', ' '] + self.text@ + seq![' ']);
            let mut i: usize = 0;
            while i < self.parameters.len()
                invariant
                    i <= self.parameters.len(),
                    sql@ == head + arguments(self.names(), i as nat),
                decreases self.parameters.len() - i,
            {
                let ghost before = sql@;
                if i > 0 {
                    sql.push(',');
                    sql.push(' ');
                }
                let name = chars_of(self.parameters[i].name.as_str());
                assert(self.names()[i as int] == name@);
                let token = token_of(&name);
                append_chars(&mut sql, &token);
                sql.push(' ');
                sql.push('=');
                sql.push(' ');
                let position = placeholder_of(i + 1);
                append_chars(&mut sql, &position);
                assert(sql@ =~= head + arguments(self.names(), (i + 1) as nat));
                i += 1;
            }
        } else {
            assert(sql@ =~= seq!['E', 'X', 'E', 'C', ' '] + self.text@);
        }
        string_of(&sql)
    }
}

fn identifier_char(c: char) -> (found: bool)
    ensures
        found == is_identifier_char(c),
{
    ('a' <= c && c <= 'z') || ('A' <= c && c <= 'Z') || ('0' <= c && c <= '9') || c == '_'
}

/// The name without its leading sigil, as a range of `name`.
fn name_start(name: &Vec<char>) -> (start: usize)
    ensures
        start <= name.len(),
        name@.skip(start as int) == without_sigil(name@),
{
    if name.len() > 0 && name[0] == '@' {
        1
    } else {
        assert(name@.skip(0) =~= name@);
        0
    }
}

fn positional(name: &Vec<char>) -> (found: bool)
    ensures
        found == is_positional(without_sigil(name@)),
{
    let start = name_start(name);
    let ghost bare = without_sigil(name@);
    if name.len() - start < 2 || name[start] != 'P' {
        return false;
    }
    let mut i: usize = start + 1;
    while i < name.len()
        invariant
            start + 1 <= i <= name.len(),
            bare == name@.skip(start as int),
            bare == without_sigil(name@),
            forall|j: int| 1 <= j < i - start ==> is_digit(#[trigger] bare[j]),
        decreases name.len() - i,
    {
        let c = name[i];
        if !('0' <= c && c <= '9') {
            assert(bare.len() == name@.len() - start);
            assert(!is_digit(bare[i - start]));
            return false;
        }
        assert(bare[i - start] == c);
        i += 1;
    }
    true
}

fn token_of(name: &Vec<char>) -> (made: Vec<char>)
    ensures
        made@ == token(name@),
{
    let start = name_start(name);
    let mut made: Vec<char> = Vec::new();
    made.push('@');
    let mut i: usize = start;
    while i < name.len()
        invariant
            start <= i <= name.len(),
            made@ == seq!['@'] + name@.subrange(start as int, i as int),
        decreases name.len() - i,
    {
        made.push(name[i]);
        assert(name@.subrange(start as int, i + 1) =~= name@.subrange(start as int, i as int).push(
            name@[i as int],
        ));
        i += 1;
    }
    assert(name@.subrange(start as int, name@.len() as int) =~= name@.skip(start as int));
    made
}

fn placeholder_of(position: usize) -> (made: Vec<char>)
    ensures
        made@ == placeholder(position as nat),
{
    let mut made: Vec<char> = Vec::new();
    made.push('@');
    made.push('P');
    assert(made@ =~= seq!['@', 'P']);
    append_decimal(&mut made, position as u64);
    made
}

fn occurs(haystack: &Vec<char>, needle: &Vec<char>, at: usize) -> (found: bool)
    requires
        at <= haystack.len(),
    ensures
        found == occurs_at(haystack@, needle@, at as int),
{
    if needle.len() > haystack.len() - at {
        return false;
    }
    let mut i: usize = 0;
    while i < needle.len()
        invariant
            i <= needle.len(),
            at + needle.len() <= haystack.len(),
            haystack@.subrange(at as int, at + i) == needle@.take(i as int),
        decreases needle.len() - i,
    {
        if haystack[at + i] != needle[i] {
            assert(haystack@.subrange(at as int, at + needle.len())[i as int] != needle@[i as int]);
            return false;
        }
        assert(haystack@.subrange(at as int, at + i + 1) =~= haystack@.subrange(
            at as int,
            at + i,
        ).push(haystack@[at + i]));
        assert(needle@.take(i + 1) =~= needle@.take(i as int).push(needle@[i as int]));
        i += 1;
    }
    assert(needle@.take(needle@.len() as int) =~= needle@);
    true
}

fn replace_chars(haystack: &Vec<char>, needle: &Vec<char>, replacement: &Vec<char>) -> (made: Vec<
    char,
>)
    ensures
        made@ == replaced(haystack@, needle@, replacement@),
{
    let mut made: Vec<char> = Vec::new();
    let mut i: usize = 0;
    while i < haystack.len()
        invariant
            i <= haystack.len(),
            made@ + replaced_from(haystack@, needle@, replacement@, i as int) == replaced(
                haystack@,
                needle@,
                replacement@,
            ),
        decreases haystack.len() - i,
    {
        let ghost before = made@;
        let ghost rest = replaced_from(haystack@, needle@, replacement@, i as int);
        let whole = needle.len() > 0 && occurs(haystack, needle, i) && (i + needle.len()
            >= haystack.len() || !identifier_char(haystack[i + needle.len()]));
        assert(whole == token_at(haystack@, needle@, i as int));
        if whole {
            append_chars(&mut made, replacement);
            i += needle.len();
            assert(made@ + replaced_from(haystack@, needle@, replacement@, i as int) =~= before
                + rest);
        } else {
            made.push(haystack[i]);
            i += 1;
            assert(made@ + replaced_from(haystack@, needle@, replacement@, i as int) =~= before
                + rest);
        }
    }
    assert(made@ + Seq::<char>::empty() =~= made@);
    made
}

/// Replaces each occurrence of `needle` in `haystack` that ends where an
/// identifier cannot go on: `@id` is replaced where it stands alone, and
/// left alone inside `@id2`. The text is read once; what was put in is not
/// read again. An empty `needle` replaces nothing.
pub fn replace_param_token(haystack: &str, needle: &str, replacement: &str) -> (made: String)
    ensures
        made@ == replaced(haystack@, needle@, replacement@),
{
    let haystack = chars_of(haystack);
    let needle = chars_of(needle);
    let replacement = chars_of(replacement);
    string_of(&replace_chars(&haystack, &needle, &replacement))
}

} // verus!
