//! Errors and the chain of their causes: how a chain is walked, joined into
//! one text, held without its type, and reported when a program ends.

use vstd::prelude::*;
use vstd::string::*;

verus! {

/// An error of any kind, held by its message and the error that caused it,
/// if any.
///
/// This is the one type in which causes are held, so that a chain can be
/// walked whatever the errors in it were.
#[derive(Debug)]
pub struct BoxedError {
    message: String,
    source: Option<Box<BoxedError>>,
}

/// An error that has a message and may have a cause.
///
/// `chain` is what the error amounts to: its own message first, then the
/// message of its cause, then of that error's cause, down to the error that
/// has none. A chain is never empty.
pub trait CausalError {
    spec fn chain(&self) -> Seq<Seq<char>>;

    /// The error's own message.
    fn message(&self) -> (s: String)
        ensures
            self.chain().len() >= 1,
            s@ == self.chain()[0],
    ;

    /// The error that caused this one. `None` means that this error is the
    /// end of its chain.
    fn source(&self) -> (cause: Option<&BoxedError>)
        ensures
            self.chain().len() >= 1,
            match cause {
                Some(c) => c@ == self.chain().drop_first(),
                None => self.chain().len() == 1,
            },
    ;
}

impl BoxedError {
    /// The messages of this error and of the errors behind it.
    pub closed spec fn messages(&self) -> Seq<Seq<char>>
        decreases self,
    {
        match self.source {
            None => seq![self.message@],
            Some(cause) => seq![self.message@] + cause.messages(),
        }
    }

    /// There is always the error's own message.
    pub proof fn lemma_not_empty(&self)
        ensures
            self@.len() >= 1,
    {
    }

    /// Takes any error and holds it without its type. Nothing of its chain
    /// is lost.
    pub fn new<E: CausalError>(error: E) -> (boxed: Self)
        ensures
            boxed@ == error.chain(),
    {
        let message = error.message();
        let source = match error.source() {
            None => None,
            Some(cause) => Some(Box::new(cause.duplicate())),
        };
        let boxed = BoxedError { message, source };
        assert(boxed.messages() =~= error.chain());
        boxed
    }

    /// An error with the given message, caused by `source` where there is
    /// one.
    pub fn from_parts(message: String, source: Option<BoxedError>) -> (boxed: Self)
        ensures
            boxed@ == match source {
                None => seq![message@],
                Some(cause) => seq![message@] + cause@,
            },
    {
        match source {
            None => BoxedError { message, source: None },
            Some(cause) => BoxedError { message, source: Some(Box::new(cause)) },
        }
    }

    /// A copy of the whole chain.
    fn duplicate(&self) -> (copy: Self)
        ensures
            copy@ == self@,
        decreases self,
    {
        let source = match &self.source {
            None => None,
            Some(cause) => Some(Box::new(cause.duplicate())),
        };
        BoxedError { message: self.message.clone(), source }
    }
}

impl View for BoxedError {
    type V = Seq<Seq<char>>;

    open spec fn view(&self) -> Seq<Seq<char>> {
        self.messages()
    }
}

impl CausalError for BoxedError {
    open spec fn chain(&self) -> Seq<Seq<char>> {
        self@
    }

    fn message(&self) -> (s: String) {
        self.message.clone()
    }

    fn source(&self) -> (cause: Option<&BoxedError>) {
        match &self.source {
            None => None,
            Some(cause) => {
                assert(self@.drop_first() =~= cause@);
                Some(&**cause)
            },
        }
    }
}

/// The messages of `chain` in one text, `separator` between each two of
/// them and nowhere else.
pub open spec fn joined(chain: Seq<Seq<char>>, separator: Seq<char>) -> Seq<char>
    decreases chain.len(),
{
    if chain.len() == 0 {
        Seq::empty()
    } else if chain.len() == 1 {
        chain[0]
    } else {
        chain[0] + separator + joined(chain.drop_first(), separator)
    }
}

/// What follows a message that has been written: nothing if `rest` is
/// empty, else a separator and the messages of `rest`, joined.
pub open spec fn continued(rest: Seq<Seq<char>>, separator: Seq<char>) -> Seq<char> {
    if rest.len() == 0 {
        Seq::empty()
    } else {
        separator + joined(rest, separator)
    }
}

/// A chain of one error is joined to that error's message: no separator is
/// written.
pub proof fn lemma_joined_single(message: Seq<char>, separator: Seq<char>)
    ensures
        joined(seq![message], separator) == message,
{
}

/// The first message stands at the front, and what follows it is the rest
/// of the chain, joined and set off by a separator.
pub proof fn lemma_joined_first(chain: Seq<Seq<char>>, separator: Seq<char>)
    requires
        chain.len() >= 1,
    ensures
        joined(chain, separator) == chain[0] + continued(chain.drop_first(), separator),
{
    if chain.len() == 1 {
        assert(chain[0] + Seq::<char>::empty() =~= chain[0]);
    } else {
        assert(chain[0] + separator + joined(chain.drop_first(), separator) =~= chain[0] + (
        separator + joined(chain.drop_first(), separator)));
    }
}

/// One more error at the end of a chain adds a separator and its message
/// at the end of the text: no separator trails.
pub proof fn lemma_joined_push(chain: Seq<Seq<char>>, last: Seq<char>, separator: Seq<char>)
    requires
        chain.len() >= 1,
    ensures
        joined(chain.push(last), separator) == joined(chain, separator) + separator + last,
    decreases chain.len(),
{
    let longer = chain.push(last);
    assert(joined(longer, separator) == chain[0] + separator + joined(
        longer.drop_first(),
        separator,
    ));
    if chain.len() == 1 {
        assert(longer.drop_first() =~= seq![last]);
        lemma_joined_single(last, separator);
    } else {
        let rest = chain.drop_first();
        assert(longer.drop_first() =~= rest.push(last));
        lemma_joined_push(rest, last, separator);
        assert(chain[0] + separator + (joined(rest, separator) + separator + last) =~= (chain[0]
            + separator + joined(rest, separator)) + separator + last);
    }
}

/// An error that is to be written with its causes, `separator` between the
/// messages.
pub struct JoinErrorSources<'a, E> {
    error: &'a E,
    separator: &'a str,
}

/// Writing an error together with what caused it.
pub trait DisplayError: CausalError + Sized {
    /// The error with its causes, ready to be written with `separator`
    /// between the messages.
    fn join_sources<'a>(&'a self, separator: &'a str) -> (joiner: JoinErrorSources<'a, Self>)
        ensures
            joiner.chain() == self.chain(),
            joiner.separator() == separator@,
    ;
}

impl<T: CausalError> DisplayError for T {
    fn join_sources<'a>(&'a self, separator: &'a str) -> (joiner: JoinErrorSources<'a, Self>) {
        JoinErrorSources { error: self, separator }
    }
}

/// The chain behind an error: that of its cause, or none.
pub open spec fn chain_of(cause: Option<&BoxedError>) -> Seq<Seq<char>> {
    match cause {
        Some(c) => c@,
        None => Seq::empty(),
    }
}

impl<'a, E: CausalError> JoinErrorSources<'a, E> {
    /// The chain of the error that is to be written.
    pub closed spec fn chain(&self) -> Seq<Seq<char>> {
        self.error.chain()
    }

    /// What is written between two messages.
    pub closed spec fn separator(&self) -> Seq<char> {
        self.separator@
    }

    /// The text of the error: its message, then for each cause in turn the
    /// separator and the cause's message.
    pub fn render(&self) -> (text: String)
        ensures
            text@ == joined(self.chain(), self.separator()),
    {
        let mut text = self.error.message();
        let mut cause = self.error.source();
        proof {
            lemma_joined_first(self.error.chain(), self.separator@);
        }
        loop
            invariant
                joined(self.error.chain(), self.separator@) == text@ + continued(
                    chain_of(cause),
                    self.separator@,
                ),
            decreases chain_of(cause).len(),
        {
            match cause {
                None => {
                    assert(text@ + Seq::<char>::empty() =~= text@);
                    return text;
                },
                Some(error) => {
                    let message = error.message();
                    proof {
                        lemma_joined_first(error@, self.separator@);
                        assert(text@ + (self.separator@ + (message@ + continued(
                            error@.drop_first(),
                            self.separator@,
                        ))) =~= text@ + self.separator@ + message@ + continued(
                            error@.drop_first(),
                            self.separator@,
                        ));
                    }
                    text.append(self.separator);
                    text.append(message.as_str());
                    cause = error.source();
                },
            }
        }
    }
}

/// The texts of a list of strings.
pub open spec fn texts(list: Seq<String>) -> Seq<Seq<char>> {
    list.map_values(|text: String| text@)
}

/// The messages of an error and of its causes, one by one: the error's own
/// first.
pub fn messages<E: CausalError>(error: &E) -> (list: Vec<String>)
    ensures
        texts(list@) == error.chain(),
{
    let mut list: Vec<String> = Vec::new();
    list.push(error.message());
    let mut cause = error.source();
    assert(error.chain() =~= texts(list@) + chain_of(cause));
    loop
        invariant
            error.chain() == texts(list@) + chain_of(cause),
        decreases chain_of(cause).len(),
    {
        match cause {
            None => {
                assert(texts(list@) + Seq::<Seq<char>>::empty() =~= texts(list@));
                return list;
            },
            Some(next) => {
                let ghost before = list@;
                list.push(next.message());
                cause = next.source();
                assert(texts(list@) + chain_of(cause) =~= texts(before) + next@);
            },
        }
    }
}

/// How a program that ends on an error introduces it and sets its causes
/// apart.
pub trait TerminationInfo {
    /// What stands before the error, given the name under which the program
    /// was started, if that is known.
    spec fn prefix(invocation: Option<Seq<char>>) -> Seq<char>;

    /// What stands between an error and its cause.
    spec fn separator() -> Seq<char>;

    fn write_prefix(invocation: Option<&str>) -> (text: String)
        ensures
            text@ == Self::prefix(invocation_view(invocation)),
    ;

    fn error_separator() -> (text: &'static str)
        ensures
            text@ == Self::separator(),
    ;
}

/// The name under which a program was started, as characters.
pub open spec fn invocation_view(invocation: Option<&str>) -> Option<Seq<char>> {
    match invocation {
        Some(name) => Some(name@),
        None => None,
    }
}

/// Names the program and writes each cause on a line of its own.
pub struct MultilineTerminator;

impl TerminationInfo for MultilineTerminator {
    open spec fn prefix(invocation: Option<Seq<char>>) -> Seq<char> {
        match invocation {
            Some(name) => "Application "@ + name + " failed: "@,
            None => "Application failed: "@,
        }
    }

    open spec fn separator() -> Seq<char> {
        "\n\tcaused by: "@
    }

    fn write_prefix(invocation: Option<&str>) -> (text: String) {
        match invocation {
            Some(name) => {
                let mut text = "Application ".to_owned();
                text.append(name);
                text.append(" failed: ");
                text
            },
            None => "Application failed: ".to_owned(),
        }
    }

    fn error_separator() -> (text: &'static str) {
        "\n\tcaused by: "
    }
}

/// The error on which a program ends, to be reported as `T` says.
pub struct TerminatingError<T: TerminationInfo, E: CausalError> {
    _phantom: std::marker::PhantomData<T>,
    error: E,
}

impl<T: TerminationInfo, E: CausalError> TerminatingError<T, E> {
    /// The chain of the error that ended the program.
    pub closed spec fn chain(&self) -> Seq<Seq<char>> {
        self.error.chain()
    }

    /// The report: the prefix, then the error and its causes with the
    /// separator between them.
    pub fn render(&self, invocation: Option<&str>) -> (text: String)
        ensures
            text@ == T::prefix(invocation_view(invocation)) + joined(self.chain(), T::separator()),
    {
        let mut text = T::write_prefix(invocation);
        let errors = self.error.join_sources(T::error_separator()).render();
        text.append(errors.as_str());
        text
    }
}

impl<T, E> vstd::std_specs::convert::FromSpecImpl<E> for TerminatingError<T, BoxedError> where T: TerminationInfo, E: CausalError {
    open spec fn obeys_from_spec() -> bool {
        false
    }

    open spec fn from_spec(value: E) -> Self {
        choose|terminating: Self| terminating.chain() == value.chain()
    }
}

impl<T, E> From<E> for TerminatingError<T, BoxedError> where T: TerminationInfo, E: CausalError {
    /// Any error can end a program: it is held without its type, with its
    /// whole chain.
    fn from(value: E) -> (terminating: Self)
        ensures
            terminating.chain() == value.chain(),
    {
        TerminatingError { _phantom: std::marker::PhantomData, error: BoxedError::new(value) }
    }
}

} // verus!
