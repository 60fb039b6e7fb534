use vstd::prelude::*;

use crate::text::{
    blank, contains_text, copy_texts, fewer_bytes_than, has_infix, is_blank, lowercase, nfc,
    normalize_string, push_text, same_text, shorter_in_bytes_than, str_to_lowercase, texts, trim,
    trimmed,
};

verus! {

/// What zxcvbn estimates of a password: its score and, when it gives
/// feedback, the optional warning and the suggestions, as texts.
pub type EstimateView = (u8, Option<(Option<Seq<char>>, Seq<Seq<char>>)>);

/// Whether `t` is one of the warnings that zxcvbn can print.
pub open spec fn zxcvbn_warning_text(t: Seq<char>) -> bool {
    ||| t == "Straight rows of keys are easy to guess."@
    ||| t == "Short keyboard patterns are easy to guess."@
    ||| t == "Repeats like \"aaa\" are easy to guess."@
    ||| t == "Repeats like \"abcabcabc\" are only slightly harder to guess than \"abc\"."@
    ||| t == "This is a top-10 common password."@
    ||| t == "This is a top-100 common password."@
    ||| t == "This is a very common password."@
    ||| t == "This is similar to a commonly used password."@
    ||| t == "Sequences like abc or 6543 are easy to guess."@
    ||| t == "Recent years are easy to guess."@
    ||| t == "A word by itself is easy to guess."@
    ||| t == "Dates are often easy to guess."@
    ||| t == "Names and surnames by themselves are easy to guess."@
    ||| t == "Common names and surnames are easy to guess."@
}

/// Whether `t` is one of the suggestions that zxcvbn can print.
pub open spec fn zxcvbn_suggestion_text(t: Seq<char>) -> bool {
    ||| t == "Use a few words, avoid common phrases."@
    ||| t == "No need for symbols, digits, or uppercase letters."@
    ||| t == "Add another word or two. Uncommon words are better."@
    ||| t == "Capitalization doesn't help very much."@
    ||| t == "All-uppercase is almost as easy to guess as all-lowercase."@
    ||| t == "Reversed words aren't much harder to guess."@
    ||| t == "Predictable substitutions like '@' instead of 'a' don't help very much."@
    ||| t == "Use a longer keyboard pattern with more turns."@
    ||| t == "Avoid repeated words and characters."@
    ||| t == "Avoid sequences."@
    ||| t == "Avoid recent years."@
    ||| t == "Avoid years that are associated with you."@
    ||| t == "Avoid dates and years that are associated with you."@
}

/// Whether the feedback of `estimate`, if any, is made of zxcvbn's own
/// warnings and suggestions.
pub open spec fn feedback_from_zxcvbn(estimate: EstimateView) -> bool {
    match estimate.1 {
        Some(fb) => {
            &&& (fb.0 matches Some(w) ==> zxcvbn_warning_text(w))
            &&& forall|i: int| 0 <= i < fb.1.len() ==> zxcvbn_suggestion_text(#[trigger] fb.1[i])
        },
        None => true,
    }
}

/// Whether `estimate` is one that zxcvbn can give: a score from 0 to 4, and
/// warnings and suggestions from its fixed lists. Which score and which
/// feedback a given password gets is left open: zxcvbn scores dates and years
/// against the current year read from the clock, and it walks hash maps seeded
/// once per process.
pub open spec fn possible_estimate(estimate: EstimateView) -> bool {
    &&& estimate.0 <= 4
    &&& feedback_from_zxcvbn(estimate)
}

/// Feedback that zxcvbn gives on a weak password.
#[derive(Debug, Clone)]
pub struct StrengthFeedback {
    pub warning: Option<String>,
    pub suggestions: Vec<String>,
}

/// zxcvbn's estimate of a password, held as plain values.
#[derive(Debug, Clone)]
pub struct StrengthEstimate {
    /// From 0 (guessable in 10^3 guesses) to 4 (more than 10^10 guesses).
    pub score: u8,
    pub feedback: Option<StrengthFeedback>,
}

/// The text of an optional string.
pub open spec fn optional_text(o: Option<String>) -> Option<Seq<char>> {
    match o {
        Some(s) => Some(s@),
        None => None,
    }
}

impl View for StrengthFeedback {
    type V = (Option<Seq<char>>, Seq<Seq<char>>);

    open spec fn view(&self) -> Self::V {
        (optional_text(self.warning), texts(self.suggestions@))
    }
}

impl View for StrengthEstimate {
    type V = (u8, Option<(Option<Seq<char>>, Seq<Seq<char>>)>);

    open spec fn view(&self) -> Self::V {
        (
            self.score,
            match self.feedback {
                Some(f) => Some(f@),
                None => None,
            },
        )
    }
}

/// `zxcvbn::zxcvbn(password, &[user_input])`, read back as plain values: the
/// score as its number and the feedback's warning and suggestions as the texts
/// they display. The score lies between 0 and 4, and the warning and the
/// suggestions are among the texts that zxcvbn's `Warning` and `Suggestion`
/// display. Which score and which feedback a given password gets is not
/// stated: zxcvbn scores dates and years against the current year, read from
/// the clock, and between equally good matches it picks by walking hash maps
/// seeded once per process.
#[verifier::external_body]
fn zxcvbn_assess(password: &str, user_input: &str) -> (e: StrengthEstimate)
    ensures
        e.score <= 4,
        feedback_from_zxcvbn(e@),
{
    let entropy = zxcvbn::zxcvbn(password, &[user_input]);
    let feedback = entropy.feedback().map(|f| StrengthFeedback {
        warning: f.warning().map(|w| w.to_string()),
        suggestions: f.suggestions().iter().map(|s| s.to_string()).collect(),
    });
    StrengthEstimate { score: u8::from(entropy.score()), feedback }
}

/// The message given for a password that zxcvbn finds too guessable and on
/// which it gives no feedback.
pub open spec fn too_guessable_message() -> Seq<char> {
    "Password is too guessable. Please add uncommon words."@
}

/// The message given for a password under sixteen bytes.
pub open spec fn too_short_message() -> Seq<char> {
    "Should be at least 16 characters long"@
}

/// The message given for an empty pseudo.
pub open spec fn pseudo_mandatory_message() -> Seq<char> {
    "Pseudo is mandatory"@
}

/// The message given for a password that holds the forbidden text `t`.
pub open spec fn illegal_text_message(t: Seq<char>) -> Seq<char> {
    "Password cannot contain the text "@ + t
}

/// The message given for a password that holds the user's own pseudo `p`.
pub open spec fn own_pseudo_message(p: Seq<char>) -> Seq<char> {
    "Password cannot contain your own pseudo (\""@ + p + "\")"@
}

/// The texts that no password may contain, in lower case.
pub open spec fn illegal_texts() -> Seq<Seq<char>> {
    seq!["vaultchat"@]
}

/// The warning and the suggestions of zxcvbn's feedback, in that order.
pub open spec fn feedback_messages(estimate: EstimateView) -> Seq<Seq<char>> {
    match estimate.1 {
        Some(fb) => match fb.0 {
            Some(w) => seq![w] + fb.1,
            None => fb.1,
        },
        None => seq![],
    }
}

/// The errors that zxcvbn's estimate gives: none from score 3 up; below it, the
/// feedback, or the generic message when the feedback is empty.
pub open spec fn guessability_errors(estimate: EstimateView) -> Seq<Seq<char>> {
    if estimate.0 < 3 {
        if feedback_messages(estimate).len() == 0 {
            seq![too_guessable_message()]
        } else {
            feedback_messages(estimate)
        }
    } else {
        seq![]
    }
}

/// The error for a normalized password under sixteen bytes, if it is one.
pub open spec fn length_errors(normalized: Seq<char>) -> Seq<Seq<char>> {
    if shorter_in_bytes_than(normalized, 16) {
        seq![too_short_message()]
    } else {
        seq![]
    }
}

/// One error for each text of `forbidden` that the lowercased password
/// `lowered` contains, in the order of `forbidden`.
pub open spec fn illegal_text_errors(lowered: Seq<char>, forbidden: Seq<Seq<char>>) -> Seq<Seq<char>>
    decreases forbidden.len(),
{
    if forbidden.len() == 0 {
        seq![]
    } else {
        let earlier = illegal_text_errors(lowered, forbidden.drop_last());
        if has_infix(lowered, forbidden.last()) {
            earlier.push(illegal_text_message(forbidden.last()))
        } else {
            earlier
        }
    }
}

/// The error for a password that contains the user's own pseudo `key`
/// (normalized, trimmed and lowercased), unless that pseudo is empty.
pub open spec fn own_pseudo_errors(lowered: Seq<char>, key: Seq<char>) -> Seq<Seq<char>> {
    if key.len() != 0 && has_infix(lowered, key) {
        seq![own_pseudo_message(key)]
    } else {
        seq![]
    }
}

/// The errors on a password, given zxcvbn's estimate of it, its NFC form, the
/// lowercase of that form, and the pseudo key.
pub open spec fn password_errors_given(
    estimate: EstimateView,
    normalized: Seq<char>,
    lowered: Seq<char>,
    key: Seq<char>,
) -> Seq<Seq<char>> {
    guessability_errors(estimate) + length_errors(normalized) + illegal_text_errors(
        lowered,
        illegal_texts(),
    ) + own_pseudo_errors(lowered, key)
}

/// The pseudo in the form that a password is checked against: NFC, trimmed,
/// lower case.
pub open spec fn pseudo_key(pseudo: Seq<char>) -> Seq<char> {
    lowercase(trimmed(nfc(pseudo)))
}

/// Whether `errors` are errors that a password chosen with a pseudo can get:
/// none for an empty password; otherwise those that `password_errors_given`
/// gives for an estimate that zxcvbn can return for the password, checked
/// against the pseudo, with the NFC form of the password, its lowercase and
/// the pseudo key.
pub open spec fn password_errors_possible(pseudo: Seq<char>, password: Seq<char>, errors: Seq<Seq<char>>) -> bool {
    if password.len() == 0 {
        errors.len() == 0
    } else {
        exists|e: EstimateView|
            possible_estimate(e) && errors == #[trigger] password_errors_given(
                e,
                nfc(password),
                lowercase(nfc(password)),
                pseudo_key(pseudo),
            )
    }
}

/// Whether a password chosen with a pseudo keeps the library's own rules: it
/// takes at least sixteen bytes in NFC, and its lowercase NFC form holds
/// neither a forbidden text nor the pseudo key.
pub open spec fn password_keeps_rules(pseudo: Seq<char>, password: Seq<char>) -> bool {
    &&& !shorter_in_bytes_than(nfc(password), 16)
    &&& !has_infix(lowercase(nfc(password)), "vaultchat"@)
    &&& !(pseudo_key(pseudo).len() != 0 && has_infix(lowercase(nfc(password)), pseudo_key(pseudo)))
}

/// The errors on a pseudo: one when it is blank once in NFC.
pub open spec fn pseudo_errors(pseudo: Seq<char>) -> Seq<Seq<char>> {
    if blank(nfc(pseudo)) {
        seq![pseudo_mandatory_message()]
    } else {
        seq![]
    }
}

/// An estimate scored 3 or more draws no guessability error; one scored
/// below 3 draws its warning, then its suggestions, or the generic message
/// when it carries neither.
pub proof fn law_guessability_follows_the_score(estimate: EstimateView)
    ensures
        estimate.0 >= 3 ==> guessability_errors(estimate).len() == 0,
        estimate.0 < 3 && estimate.1 is None ==> guessability_errors(estimate) == seq![
            too_guessable_message(),
        ],
        estimate.0 < 3 ==> (estimate.1 matches Some(fb) ==> (fb.0 matches Some(w)
            ==> guessability_errors(estimate) == seq![w] + fb.1)),
        estimate.0 < 3 ==> (estimate.1 matches Some(fb) ==> (fb.0 is None && fb.1.len() > 0
            ==> guessability_errors(estimate) == fb.1)),
        estimate.0 < 3 ==> (estimate.1 matches Some(fb) ==> (fb.0 is None && fb.1.len() == 0
            ==> guessability_errors(estimate) == seq![too_guessable_message()])),
        estimate.0 < 3 ==> guessability_errors(estimate).len() > 0,
{
}

/// The errors on a password start with those of zxcvbn's estimate, so a
/// password that the estimate scores below 3 always has an error; and the
/// password's own rules are checked whatever the estimate says.
pub proof fn law_weak_estimate_gives_errors(
    estimate: EstimateView,
    normalized: Seq<char>,
    lowered: Seq<char>,
    key: Seq<char>,
)
    ensures
        estimate.0 < 3 ==> password_errors_given(estimate, normalized, lowered, key).len() > 0,
        password_errors_given(estimate, normalized, lowered, key).subrange(
            0,
            guessability_errors(estimate).len() as int,
        ) == guessability_errors(estimate),
        shorter_in_bytes_than(normalized, 16) ==> password_errors_given(
            estimate,
            normalized,
            lowered,
            key,
        ).len() > 0,
{
    law_guessability_follows_the_score(estimate);
    let g = guessability_errors(estimate);
    let all = password_errors_given(estimate, normalized, lowered, key);
    assert(all.subrange(0, g.len() as int) =~= g);
}

/// A confirmation differs from its password only when it is not empty and
/// is another text.
pub proof fn law_mismatch_needs_a_confirmation(password: Seq<char>, confirm_password: Seq<char>)
    ensures
        confirm_password.len() == 0 ==> !passwords_differ(password, confirm_password),
        confirm_password.len() != 0 ==> (passwords_differ(password, confirm_password) <==> password
            != confirm_password),
{
}

/// A pseudo draws an error exactly when it is blank once in NFC, whatever
/// characters it holds, and that error is the one saying it is mandatory.
pub proof fn law_pseudo_error_only_when_blank(pseudo: Seq<char>)
    ensures
        !blank(nfc(pseudo)) ==> pseudo_errors(pseudo).len() == 0,
        blank(nfc(pseudo)) ==> pseudo_errors(pseudo) == seq![pseudo_mandatory_message()],
{
}

/// Whether a non-empty confirmation differs from the password.
pub open spec fn passwords_differ(password: Seq<char>, confirm_password: Seq<char>) -> bool {
    confirm_password.len() != 0 && password != confirm_password
}

/// Whether the text `t` ends with the character `c`.
pub open spec fn ends_with(t: Seq<char>, c: char) -> bool {
    t.len() > 0 && t.last() == c
}

proof fn lemma_zxcvbn_texts_end_with_period(t: Seq<char>)
    requires
        zxcvbn_warning_text(t) || zxcvbn_suggestion_text(t),
    ensures
        ends_with(t, '.'),
{
    reveal_strlit("Straight rows of keys are easy to guess.");
    reveal_strlit("Short keyboard patterns are easy to guess.");
    reveal_strlit("Repeats like \"aaa\" are easy to guess.");
    reveal_strlit("Repeats like \"abcabcabc\" are only slightly harder to guess than \"abc\".");
    reveal_strlit("This is a top-10 common password.");
    reveal_strlit("This is a top-100 common password.");
    reveal_strlit("This is a very common password.");
    reveal_strlit("This is similar to a commonly used password.");
    reveal_strlit("Sequences like abc or 6543 are easy to guess.");
    reveal_strlit("Recent years are easy to guess.");
    reveal_strlit("A word by itself is easy to guess.");
    reveal_strlit("Dates are often easy to guess.");
    reveal_strlit("Names and surnames by themselves are easy to guess.");
    reveal_strlit("Common names and surnames are easy to guess.");
    reveal_strlit("Use a few words, avoid common phrases.");
    reveal_strlit("No need for symbols, digits, or uppercase letters.");
    reveal_strlit("Add another word or two. Uncommon words are better.");
    reveal_strlit("Capitalization doesn't help very much.");
    reveal_strlit("All-uppercase is almost as easy to guess as all-lowercase.");
    reveal_strlit("Reversed words aren't much harder to guess.");
    reveal_strlit("Predictable substitutions like '@' instead of 'a' don't help very much.");
    reveal_strlit("Use a longer keyboard pattern with more turns.");
    reveal_strlit("Avoid repeated words and characters.");
    reveal_strlit("Avoid sequences.");
    reveal_strlit("Avoid recent years.");
    reveal_strlit("Avoid years that are associated with you.");
    reveal_strlit("Avoid dates and years that are associated with you.");
}

proof fn lemma_message_endings(key: Seq<char>)
    ensures
        ends_with(too_guessable_message(), '.'),
        ends_with(too_short_message(), 'g'),
        ends_with(illegal_text_message("vaultchat"@), 't'),
        ends_with(own_pseudo_message(key), ')'),
{
    reveal_strlit("Password is too guessable. Please add uncommon words.");
    reveal_strlit("Should be at least 16 characters long");
    reveal_strlit("Password cannot contain the text ");
    reveal_strlit("vaultchat");
    reveal_strlit("Password cannot contain your own pseudo (\"");
    reveal_strlit("\")");
}

proof fn lemma_guessability_errors_end_with_period(e: EstimateView)
    requires
        feedback_from_zxcvbn(e),
    ensures
        forall|i: int|
            0 <= i < guessability_errors(e).len() ==> ends_with(
                #[trigger] guessability_errors(e)[i],
                '.',
            ),
        guessability_errors(e).len() == 0 <==> e.0 >= 3,
{
    lemma_message_endings(seq![]);
    assert forall|i: int| 0 <= i < guessability_errors(e).len() implies ends_with(
        #[trigger] guessability_errors(e)[i],
        '.',
    ) by {
        if e.0 < 3 && feedback_messages(e).len() != 0 {
            let fb = e.1->0;
            match fb.0 {
                Some(w) => {
                    if i == 0 {
                        lemma_zxcvbn_texts_end_with_period(w);
                    } else {
                        assert(feedback_messages(e)[i] == fb.1[i - 1]);
                        lemma_zxcvbn_texts_end_with_period(fb.1[i - 1]);
                    }
                },
                None => {
                    lemma_zxcvbn_texts_end_with_period(fb.1[i]);
                },
            }
        }
    }
}

proof fn lemma_illegal_text_errors(lowered: Seq<char>)
    ensures
        illegal_text_errors(lowered, illegal_texts()) == (if has_infix(lowered, "vaultchat"@) {
            seq![illegal_text_message("vaultchat"@)]
        } else {
            Seq::<Seq<char>>::empty()
        }),
{
    reveal_with_fuel(illegal_text_errors, 2);
    assert(illegal_texts().drop_last() =~= Seq::<Seq<char>>::empty());
    assert(illegal_texts().last() == "vaultchat"@);
    assert(illegal_text_errors(lowered, illegal_texts().drop_last()) == Seq::<Seq<char>>::empty());
}

/// What the errors on a non-empty password say, whichever feedback zxcvbn
/// picked: the length error exactly when its NFC form is under sixteen bytes,
/// the forbidden-text error exactly when its lowercase holds "vaultchat", the
/// pseudo error exactly when the pseudo key is not empty and the lowercase
/// holds it. An empty password has no error, and a password with no error is
/// empty or keeps the library's rules.
pub proof fn law_password_messages(pseudo: Seq<char>, password: Seq<char>, errors: Seq<Seq<char>>)
    requires
        password_errors_possible(pseudo, password, errors),
    ensures
        password.len() > 0 ==> (errors.contains(too_short_message()) <==> shorter_in_bytes_than(
            nfc(password),
            16,
        )),
        password.len() > 0 ==> (errors.contains(illegal_text_message("vaultchat"@)) <==> has_infix(
            lowercase(nfc(password)),
            "vaultchat"@,
        )),
        password.len() > 0 ==> (errors.contains(own_pseudo_message(pseudo_key(pseudo))) <==> (
        pseudo_key(pseudo).len() != 0 && has_infix(lowercase(nfc(password)), pseudo_key(pseudo)))),
        password.len() == 0 ==> errors.len() == 0,
        errors.len() == 0 ==> password.len() == 0 || password_keeps_rules(pseudo, password),
{
    if password.len() > 0 {
        let e = choose|e: EstimateView|
            possible_estimate(e) && errors == #[trigger] password_errors_given(
                e,
                nfc(password),
                lowercase(nfc(password)),
                pseudo_key(pseudo),
            );
        let lowered = lowercase(nfc(password));
        let key = pseudo_key(pseudo);
        let g = guessability_errors(e);
        let l = length_errors(nfc(password));
        let ill = illegal_text_errors(lowered, illegal_texts());
        let own = own_pseudo_errors(lowered, key);
        lemma_guessability_errors_end_with_period(e);
        lemma_illegal_text_errors(lowered);
        lemma_message_endings(key);
        assert(errors == g + l + ill + own);
        let n1 = g.len();
        let n2 = n1 + l.len();
        let n3 = n2 + ill.len();
        assert forall|i: int| 0 <= i < errors.len() implies {
            &&& i < n1 ==> #[trigger] errors[i] == g[i]
            &&& n1 <= i < n2 ==> errors[i] == l[i - n1]
            &&& n2 <= i < n3 ==> errors[i] == ill[i - n2]
            &&& n3 <= i ==> errors[i] == own[i - n3]
        } by {}
        // The length error.
        if shorter_in_bytes_than(nfc(password), 16) {
            assert(errors[n1 as int] == too_short_message());
        }
        if errors.contains(too_short_message()) {
            let i = choose|i: int| 0 <= i < errors.len() && errors[i] == too_short_message();
            if i < n1 {
                assert(ends_with(g[i], '.'));
            } else if i >= n2 && i < n3 {
                assert(ill[i - n2] == illegal_text_message("vaultchat"@));
            } else if i >= n3 {
                assert(own[i - n3] == own_pseudo_message(key));
            }
        }
        // The forbidden-text error.
        if has_infix(lowered, "vaultchat"@) {
            assert(errors[n2 as int] == illegal_text_message("vaultchat"@));
        }
        if errors.contains(illegal_text_message("vaultchat"@)) {
            let i = choose|i: int|
                0 <= i < errors.len() && errors[i] == illegal_text_message("vaultchat"@);
            if i < n1 {
                assert(ends_with(g[i], '.'));
            } else if i < n2 {
                assert(l[i - n1] == too_short_message());
            } else if i >= n3 {
                assert(own[i - n3] == own_pseudo_message(key));
            }
        }
        // The pseudo error.
        if key.len() != 0 && has_infix(lowered, key) {
            assert(errors[n3 as int] == own_pseudo_message(key));
        }
        if errors.contains(own_pseudo_message(key)) {
            let i = choose|i: int| 0 <= i < errors.len() && errors[i] == own_pseudo_message(key);
            if i < n1 {
                assert(ends_with(g[i], '.'));
            } else if i < n2 {
                assert(l[i - n1] == too_short_message());
            } else if i < n3 {
                assert(ill[i - n2] == illegal_text_message("vaultchat"@));
            }
        }
    }
}

/// The forbidden texts, in the order in which a password is checked for them.
pub fn illegal_text_list() -> (v: Vec<&'static str>)
    ensures
        v@.len() == illegal_texts().len(),
        forall|i: int| 0 <= i < v@.len() ==> #[trigger] v@[i]@ == illegal_texts()[i],
{
    let v = vec!["vaultchat"];
    assert(v@[0]@ == illegal_texts()[0]);
    v
}

/// The errors on a pseudo.
pub fn check_pseudo(pseudo: &str) -> (errors: Vec<String>)
    ensures
        texts(errors@) == pseudo_errors(pseudo@),
        !blank(nfc(pseudo@)) ==> errors@.len() == 0,
        blank(nfc(pseudo@)) ==> texts(errors@) == seq![pseudo_mandatory_message()],
{
    let mut errors: Vec<String> = Vec::new();
    let normalized_pseudo = normalize_string(pseudo);
    if is_blank(normalized_pseudo.as_str()) {
        push_text(&mut errors, String::from_str("Pseudo is mandatory"));
        return errors;
    }
    assert(texts(errors@) =~= Seq::<Seq<char>>::empty());
    errors
}

/// The errors that a password gets from zxcvbn's `estimate` of it, from the
/// byte length of its NFC form `normalized_password`, from the forbidden texts
/// and the pseudo key `pseudo_key` found in `lower_password`, the lowercase of
/// that form; in that order.
pub fn password_errors_from(
    estimate: &StrengthEstimate,
    normalized_password: &str,
    lower_password: &str,
    pseudo_key: &str,
) -> (errors: Vec<String>)
    ensures
        texts(errors@) == password_errors_given(
            estimate@,
            normalized_password@,
            lower_password@,
            pseudo_key@,
        ),
{
    let mut errors: Vec<String> = Vec::new();
    assert(texts(errors@) =~= Seq::<Seq<char>>::empty());
    if estimate.score < 3 {
        match &estimate.feedback {
            Some(feedback) => {
                match &feedback.warning {
                    Some(warning) => {
                        push_text(&mut errors, warning.clone());
                    },
                    None => {},
                }
                let ghost before = texts(errors@);
                let mut k: usize = 0;
                while k < feedback.suggestions.len()
                    invariant
                        k <= feedback.suggestions@.len(),
                        texts(errors@) == before + texts(feedback.suggestions@).subrange(
                            0,
                            k as int,
                        ),
                    decreases feedback.suggestions.len() - k,
                {
                    push_text(&mut errors, feedback.suggestions[k].clone());
                    k = k + 1;
                    assert(texts(errors@) =~= before + texts(feedback.suggestions@).subrange(
                        0,
                        k as int,
                    ));
                }
                assert(texts(feedback.suggestions@).subrange(
                    0,
                    feedback.suggestions@.len() as int,
                ) =~= texts(feedback.suggestions@));
                assert(texts(errors@) =~= feedback_messages(estimate@));
            },
            None => {},
        }
        if errors.len() == 0 {
            push_text(
                &mut errors,
                String::from_str("Password is too guessable. Please add uncommon words."),
            );
        }
    }
    assert(texts(errors@) =~= guessability_errors(estimate@));
    let ghost after_guess = texts(errors@);
    if fewer_bytes_than(normalized_password, 16) {
        push_text(&mut errors, String::from_str("Should be at least 16 characters long"));
    }
    assert(texts(errors@) =~= after_guess + length_errors(normalized_password@));
    let ghost after_length = texts(errors@);
    let forbidden = illegal_text_list();
    let mut k: usize = 0;
    while k < forbidden.len()
        invariant
            k <= forbidden@.len() == illegal_texts().len(),
            forall|i: int| 0 <= i < forbidden@.len() ==> #[trigger] forbidden@[i]@ == illegal_texts()[i],
            texts(errors@) == after_length + illegal_text_errors(
                lower_password@,
                illegal_texts().subrange(0, k as int),
            ),
        decreases forbidden.len() - k,
    {
        let illegal_text = forbidden[k];
        proof {
            assert(illegal_texts().subrange(0, k + 1).drop_last() =~= illegal_texts().subrange(
                0,
                k as int,
            ));
        }
        if contains_text(lower_password, illegal_text) {
            let mut message = String::from_str("Password cannot contain the text ");
            message.append(illegal_text);
            push_text(&mut errors, message);
        }
        k = k + 1;
        assert(texts(errors@) =~= after_length + illegal_text_errors(
            lower_password@,
            illegal_texts().subrange(0, k as int),
        ));
    }
    assert(illegal_texts().subrange(0, forbidden@.len() as int) =~= illegal_texts());
    let ghost after_illegal = texts(errors@);
    if !pseudo_key.is_empty() && contains_text(lower_password, pseudo_key) {
        let mut message = String::from_str("Password cannot contain your own pseudo (\"");
        message.append(pseudo_key);
        message.append("\")");
        push_text(&mut errors, message);
    }
    assert(texts(errors@) =~= after_illegal + own_pseudo_errors(lower_password@, pseudo_key@));
    errors
}

/// The errors on a password chosen along with a pseudo. An empty password has
/// none (the confirmation and the button cover it).
pub fn check_password_strength(pseudo: &str, password: &str) -> (errors: Vec<String>)
    ensures
        password_errors_possible(pseudo@, password@, texts(errors@)),
        password@.len() > 0 ==> (texts(errors@).contains(too_short_message())
            <==> shorter_in_bytes_than(nfc(password@), 16)),
        password@.len() > 0 ==> (texts(errors@).contains(illegal_text_message("vaultchat"@))
            <==> has_infix(lowercase(nfc(password@)), "vaultchat"@)),
        password@.len() > 0 ==> (texts(errors@).contains(own_pseudo_message(pseudo_key(pseudo@)))
            <==> (pseudo_key(pseudo@).len() != 0 && has_infix(
            lowercase(nfc(password@)),
            pseudo_key(pseudo@),
        ))),
        password@.len() == 0 ==> errors@.len() == 0,
        errors@.len() == 0 ==> password@.len() == 0 || password_keeps_rules(pseudo@, password@),
{
    if password.is_empty() {
        let errors: Vec<String> = Vec::new();
        assert(texts(errors@) =~= Seq::<Seq<char>>::empty());
        return errors;
    }
    let normalized_password = normalize_string(password);
    let lower_password = str_to_lowercase(normalized_password.as_str());
    let normalized_pseudo = normalize_string(pseudo);
    let trimmed_pseudo = trim(normalized_pseudo.as_str());
    let key = str_to_lowercase(trimmed_pseudo.as_str());
    let estimate = zxcvbn_assess(password, pseudo);
    let errors = password_errors_from(
        &estimate,
        normalized_password.as_str(),
        lower_password.as_str(),
        key.as_str(),
    );
    proof {
        assert(possible_estimate(estimate@));
        assert(texts(errors@) == password_errors_given(
            estimate@,
            nfc(password@),
            lowercase(nfc(password@)),
            pseudo_key(pseudo@),
        ));
        law_password_messages(pseudo@, password@, texts(errors@));
    }
    errors
}

/// What is wrong with a pseudo, a password and its confirmation.
#[derive(Debug, Clone)]
pub struct CredentialErr {
    pseudo_errors: Vec<String>,
    password_errors: Vec<String>,
    password_mismatch: bool,
}

impl View for CredentialErr {
    type V = (Seq<Seq<char>>, Seq<Seq<char>>, bool);

    closed spec fn view(&self) -> Self::V {
        (texts(self.pseudo_errors@), texts(self.password_errors@), self.password_mismatch)
    }
}

impl CredentialErr {
    /// The errors on the pseudo.
    pub fn get_pseudo_errors(&self) -> (errors: Vec<String>)
        ensures
            texts(errors@) == self@.0,
    {
        copy_texts(&self.pseudo_errors)
    }

    /// The errors on the password.
    pub fn get_password_errors(&self) -> (errors: Vec<String>)
        ensures
            texts(errors@) == self@.1,
    {
        copy_texts(&self.password_errors)
    }

    /// Whether the confirmation differs from the password.
    pub fn are_passwords_different(&self) -> (different: bool)
        ensures
            different == self@.2,
    {
        self.password_mismatch
    }
}

/// Whether a pseudo, a password and its confirmation keep the rules that do
/// not rest on zxcvbn: the pseudo is not blank, the password is empty or keeps
/// the library's rules, and a non-empty confirmation matches it.
pub open spec fn credentials_keep_rules(pseudo: Seq<char>, password: Seq<char>, confirm_password: Seq<char>) -> bool {
    &&& pseudo_errors(pseudo).len() == 0
    &&& (password.len() == 0 || password_keeps_rules(pseudo, password))
    &&& !passwords_differ(password, confirm_password)
}

/// Checks a pseudo, a password and its confirmation: `Ok` when none of them
/// has an error, else every error found.
pub fn check_credentials(pseudo: &str, password: &str, confirm_password: &str) -> (r: Result<
    (),
    CredentialErr,
>)
    ensures
        r matches Err(e) ==> e@.0 == pseudo_errors(pseudo@) && password_errors_possible(
            pseudo@,
            password@,
            e@.1,
        ) && e@.2 == passwords_differ(password@, confirm_password@) && (e@.0.len() != 0
            || e@.1.len() != 0 || e@.2),
        r is Ok ==> pseudo_errors(pseudo@).len() == 0 && !passwords_differ(
            password@,
            confirm_password@,
        ) && password_errors_possible(pseudo@, password@, Seq::<Seq<char>>::empty()),
        !credentials_keep_rules(pseudo@, password@, confirm_password@) ==> r is Err,
        password@.len() == 0 ==> (r is Ok <==> credentials_keep_rules(
            pseudo@,
            password@,
            confirm_password@,
        )),
{
    let pseudo_errors = check_pseudo(pseudo);
    let password_errors = check_password_strength(pseudo, password);
    let password_mismatch = !confirm_password.is_empty() && !same_text(password, confirm_password);
    if password_mismatch || password_errors.len() != 0 || pseudo_errors.len() != 0 {
        return Err(CredentialErr { pseudo_errors, password_errors, password_mismatch });
    }
    assert(texts(password_errors@) =~= Seq::<Seq<char>>::empty());
    Ok(())
}

/// What the registration form shows for the outcome of `check_credentials`:
/// the pseudo errors, the password errors, and whether to show that the
/// passwords do not match. An `Ok` outcome clears them all.
pub fn displayed_errors(errors_holder: Result<(), CredentialErr>) -> (shown: (
    Vec<String>,
    Vec<String>,
    bool,
))
    ensures
        errors_holder is Ok ==> shown.0@.len() == 0 && shown.1@.len() == 0 && !shown.2,
        errors_holder matches Err(e) ==> (texts(shown.0@), texts(shown.1@), shown.2) == e@,
{
    match errors_holder {
        Ok(_) => (Vec::new(), Vec::new(), false),
        Err(errors) => (
            errors.get_pseudo_errors(),
            errors.get_password_errors(),
            errors.are_passwords_different(),
        ),
    }
}

/// Whether a pseudo is already taken: no account is ever reported as taken.
pub fn is_pseudo_taken(pseudo: String) -> (taken: bool)
    ensures
        !taken,
{
    false
}

} // verus!
