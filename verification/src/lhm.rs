//! The CPU temperature, out of the sensor tree of LibreHardwareMonitor.

use crate::availability::{news, AvailabilityState};
use crate::metrics::{
    cpu_temp_metrics, lost_notice, nothing, reached_notice, Collected, PartialMetrics,
};
use crate::text::{chars_of, reads_as, same_text};
use vstd::prelude::*;

verus! {

/// Where the sensor tree is served.
pub const LHM_URL: &'static str = "http://localhost:8085/data.json";

/// How long to wait for the sensor tree, in milliseconds.
pub const LHM_TIMEOUT_MS: u64 = 800;

/// A node of the sensor tree.
#[derive(Debug)]
pub struct LhmNode {
    pub text: String,
    pub value: String,
    pub children: Vec<LhmNode>,
}

/// A node and everything below it, each node before its children and each child with everything
/// below it before the next.
pub open spec fn preorder(node: LhmNode) -> Seq<LhmNode>
    decreases node,
{
    seq![node] + preorder_all(node.children@)
}

/// The same for a row of nodes.
pub open spec fn preorder_all(nodes: Seq<LhmNode>) -> Seq<LhmNode>
    decreases nodes,
{
    if nodes.len() == 0 {
        Seq::empty()
    } else {
        preorder(nodes[0]) + preorder_all(nodes.drop_first())
    }
}

/// The first of the nodes that has the given text.
pub open spec fn first_with_text(nodes: Seq<LhmNode>, target: Seq<char>) -> Option<LhmNode>
    decreases nodes.len(),
{
    if nodes.len() == 0 {
        None
    } else if nodes[0].text@ == target {
        Some(nodes[0])
    } else {
        first_with_text(nodes.drop_first(), target)
    }
}

proof fn first_of_two_rows(a: Seq<LhmNode>, b: Seq<LhmNode>, target: Seq<char>)
    ensures
        first_with_text(a + b, target) == (match first_with_text(a, target) {
            Some(n) => Some(n),
            None => first_with_text(b, target),
        }),
    decreases a.len(),
{
    if a.len() == 0 {
        assert(a + b =~= b);
    } else {
        assert((a + b).drop_first() =~= a.drop_first() + b);
        first_of_two_rows(a.drop_first(), b, target);
    }
}

/// The first node with the given text, at or below `node`.
pub fn find_by_text<'a>(node: &'a LhmNode, target: &str) -> (found: Option<&'a LhmNode>)
    ensures
        match found {
            Some(n) => Some(*n) == first_with_text(preorder(*node), target@),
            None => first_with_text(preorder(*node), target@) is None,
        },
    decreases node,
{
    proof {
        first_of_two_rows(seq![*node], preorder_all(node.children@), target@);
        assert(seq![*node].drop_first() =~= Seq::<LhmNode>::empty());
        reveal_with_fuel(first_with_text, 2);
    }
    if same_text(node.text.as_str(), target) {
        return Some(node);
    }
    let ghost all = node.children@;
    assert(all.skip(0) =~= all);
    for i in 0..node.children.len()
        invariant
            all == node.children@,
            first_with_text(preorder(*node), target@) == first_with_text(
                preorder_all(all.skip(i as int)),
                target@,
            ),
    {
        let child: &LhmNode = &node.children[i];
        assert(decreases_to!(node => node.children@[i as int]));
        let found: Option<&LhmNode> = find_by_text(child, target);
        proof {
            assert(all.skip(i as int).drop_first() =~= all.skip(i + 1));
            first_of_two_rows(preorder(*child), preorder_all(all.skip(i + 1)), target@);
        }
        if found.is_some() {
            return found;
        }
    }
    None
}

/// The characters with the Unicode property White_Space.
pub open spec fn is_white_space(c: char) -> bool {
    ||| '\u{9}' <= c <= '\u{d}'
    ||| c == ' '
    ||| c == '\u{85}'
    ||| c == '\u{a0}'
    ||| c == '\u{1680}'
    ||| '\u{2000}' <= c <= '\u{200a}'
    ||| c == '\u{2028}'
    ||| c == '\u{2029}'
    ||| c == '\u{202f}'
    ||| c == '\u{205f}'
    ||| c == '\u{3000}'
}

/// `char::is_whitespace`: whether a character has the Unicode property White_Space.
#[verifier::external_body]
fn char_is_white_space(c: char) -> (white: bool)
    ensures
        white == is_white_space(c),
{
    c.is_whitespace()
}

/// Text without the whitespace in front.
pub open spec fn trimmed_start(s: Seq<char>) -> Seq<char>
    decreases s.len(),
{
    if s.len() > 0 && is_white_space(s[0]) {
        trimmed_start(s.drop_first())
    } else {
        s
    }
}

/// Whether a character can be part of a number: a digit, a point or a sign.
pub open spec fn is_number_char(c: char) -> bool {
    '0' <= c <= '9' || c == '.' || c == '-' || c == '+'
}

/// Where the characters of a number that stand at the front of a text end.
pub open spec fn number_end(s: Seq<char>) -> nat
    decreases s.len(),
{
    if s.len() > 0 && is_number_char(s[0]) {
        1 + number_end(s.drop_first())
    } else {
        0
    }
}

/// The number at the front of a text such as `65.5 °C`, whitespace before it left out.
pub open spec fn leading_number(s: Seq<char>) -> Seq<char> {
    number_prefix_of(trimmed_start(s))
}

/// The characters of a number that stand at the very front of a text.
pub open spec fn number_prefix_of(s: Seq<char>) -> Seq<char> {
    s.take(number_end(s) as int)
}

proof fn number_end_is_in_the_text(s: Seq<char>)
    ensures
        number_end(s) <= s.len(),
    decreases s.len(),
{
    if s.len() > 0 && is_number_char(s[0]) {
        number_end_is_in_the_text(s.drop_first());
    }
}

/// The characters of a number that stand at the very front of a text.
pub fn number_prefix(s: &str) -> (number: &str)
    ensures
        number@ == number_prefix_of(s@),
{
    let chars: Vec<char> = chars_of(s);
    let mut end: usize = 0;
    assert(chars@.skip(0) =~= chars@);
    proof {
        number_end_is_in_the_text(s@);
    }
    while end < chars.len() && (('0' <= chars[end] && chars[end] <= '9') || chars[end] == '.'
        || chars[end] == '-' || chars[end] == '+')
        invariant
            chars@ == s@,
            end <= chars.len(),
            number_end(chars@) == end + number_end(chars@.skip(end as int)),
        decreases chars.len() - end,
    {
        assert(chars@.skip(end as int).drop_first() =~= chars@.skip(end + 1));
        end += 1;
    }
    s.substring_char(0, end)
}

fn trim_start(s: &str) -> (rest: &str)
    ensures
        rest@ == trimmed_start(s@),
{
    let chars: Vec<char> = chars_of(s);
    let mut from: usize = 0;
    assert(chars@.skip(0) =~= chars@);
    while from < chars.len() && char_is_white_space(chars[from])
        invariant
            chars@ == s@,
            from <= chars.len(),
            trimmed_start(chars@) == trimmed_start(chars@.skip(from as int)),
        decreases chars.len() - from,
    {
        assert(chars@.skip(from as int).drop_first() =~= chars@.skip(from + 1));
        from += 1;
    }
    assert(chars@.skip(from as int) =~= chars@.subrange(from as int, chars@.len() as int));
    s.substring_char(from, chars.len())
}

/// What `parse` makes of the number at the front of a text.
pub fn parse_leading_number<T, P: Fn(&str) -> Option<T>>(s: &str, parse: &P) -> (read: Option<T>)
    requires
        forall|t: &str| call_requires(*parse, (t,)),
    ensures
        reads_as(*parse, leading_number(s@), read),
{
    let number: &str = number_prefix(trim_start(s));
    let read: Option<T> = parse(number);
    assert(number@ == leading_number(s@) && call_ensures(*parse, (number,), read));
    read
}

/// The sensors that can hold the CPU temperature, the one to prefer first.
pub open spec fn candidates() -> Seq<Seq<char>> {
    seq!["Core (Tctl/Tdie)"@, "CPU Package"@, "Package"@]
}

/// The first node with the text of the first name that any node has.
pub open spec fn first_hit(root: LhmNode, names: Seq<Seq<char>>) -> Option<LhmNode>
    decreases names.len(),
{
    if names.len() == 0 {
        None
    } else {
        match first_with_text(preorder(root), names[0]) {
            Some(n) => Some(n),
            None => first_hit(root, names.drop_first()),
        }
    }
}

/// Whether `temp` is the reading of the first candidate that is there. There is none where no
/// candidate is there, or the value of the first has no reading.
pub open spec fn is_cpu_temp<T, P: Fn(&str) -> Option<T>>(
    root: LhmNode,
    parse: P,
    temp: Option<T>,
) -> bool {
    match first_hit(root, candidates()) {
        Some(n) => reads_as(parse, leading_number(n.value@), temp),
        None => temp is None,
    }
}

fn find_candidate(root: &LhmNode) -> (found: Option<&LhmNode>)
    ensures
        match found {
            Some(n) => Some(*n) == first_hit(*root, candidates()),
            None => first_hit(*root, candidates()) is None,
        },
{
    proof {
        let rest = candidates().drop_first();
        assert(rest =~= seq!["CPU Package"@, "Package"@]);
        assert(rest.drop_first() =~= seq!["Package"@]);
        assert(rest.drop_first().drop_first() =~= Seq::<Seq<char>>::empty());
        reveal_with_fuel(first_hit, 4);
    }
    let first: Option<&LhmNode> = find_by_text(root, "Core (Tctl/Tdie)");
    if first.is_some() {
        return first;
    }
    let second: Option<&LhmNode> = find_by_text(root, "CPU Package");
    if second.is_some() {
        return second;
    }
    find_by_text(root, "Package")
}

/// The CPU temperature in a sensor tree: the reading of the first candidate that is there. `parse`
/// turns the text of a number into a reading, if it is one.
pub fn extract_cpu_temp<T, P: Fn(&str) -> Option<T>>(root: &LhmNode, parse: P) -> (temp: Option<T>)
    requires
        forall|t: &str| call_requires(parse, (t,)),
    ensures
        is_cpu_temp(*root, parse, temp),
{
    match find_candidate(root) {
        Some(node) => parse_leading_number(node.value.as_str(), &parse),
        None => None,
    }
}

/// What the CPU temperature collector makes of a round, given the sensor tree, or none where the
/// sensor service did not answer.
pub fn lhm_metrics<T, P: Fn(&str) -> Option<T>>(
    availability: &mut AvailabilityState,
    root: Option<&LhmNode>,
    parse: P,
) -> (collected: Collected<T>)
    requires
        forall|t: &str| call_requires(parse, (t,)),
    ensures
        match root {
            None => {
                &&& final(availability)@ == Some(false)
                &&& collected.metrics == nothing::<T>()
                &&& collected.notice == lost_notice(news(old(availability)@, false))
            },
            Some(tree) => {
                let temp = collected.metrics.cpu_temp;
                &&& is_cpu_temp(*tree, parse, temp)
                &&& final(availability)@ == Some(temp is Some)
                &&& collected.metrics == (PartialMetrics { cpu_temp: temp, ..nothing() })
                &&& collected.notice == reached_notice(news(old(availability)@, temp is Some))
            },
        },
{
    match root {
        None => cpu_temp_metrics(availability, None),
        Some(tree) => {
            let temp: Option<T> = extract_cpu_temp(tree, parse);
            cpu_temp_metrics(availability, Some(temp))
        },
    }
}

/// A value made of whitespace, a number and a unit reads as the number: `65.5 °C` as `65.5`.
pub proof fn value_reads_as_its_number(space: Seq<char>, number: Seq<char>, unit: Seq<char>)
    requires
        forall|i: int| 0 <= i < space.len() ==> is_white_space(#[trigger] space[i]),
        number.len() > 0,
        forall|i: int| 0 <= i < number.len() ==> is_number_char(#[trigger] number[i]),
        unit.len() > 0 ==> !is_number_char(unit[0]),
    ensures
        leading_number(space + number + unit) == number,
{
    let s = space + number + unit;
    assert(s =~= space + (number + unit));
    leading_space_goes(space, number + unit);
    assert(is_number_char((number + unit)[0]));
    number_ends_with_it(number, unit);
    assert((number + unit).take(number.len() as int) =~= number);
}

proof fn leading_space_goes(space: Seq<char>, rest: Seq<char>)
    requires
        forall|i: int| 0 <= i < space.len() ==> is_white_space(#[trigger] space[i]),
    ensures
        trimmed_start(space + rest) == trimmed_start(rest),
    decreases space.len(),
{
    if space.len() == 0 {
        assert(space + rest =~= rest);
    } else {
        assert((space + rest)[0] == space[0]);
        assert((space + rest).drop_first() =~= space.drop_first() + rest);
        leading_space_goes(space.drop_first(), rest);
    }
}

proof fn number_ends_with_it(number: Seq<char>, unit: Seq<char>)
    requires
        forall|i: int| 0 <= i < number.len() ==> is_number_char(#[trigger] number[i]),
        unit.len() > 0 ==> !is_number_char(unit[0]),
    ensures
        number_end(number + unit) == number.len(),
    decreases number.len(),
{
    if number.len() == 0 {
        assert(number + unit =~= unit);
    } else {
        assert((number + unit)[0] == number[0]);
        assert((number + unit).drop_first() =~= number.drop_first() + unit);
        number_ends_with_it(number.drop_first(), unit);
    }
}

/// A tree is its root and, child by child in their order, everything below: no child is left out,
/// whatever the others hold.
pub proof fn a_tree_is_its_root_and_all_children(root: LhmNode)
    ensures
        preorder(root) == seq![root] + root.children@.map_values(
            |c: LhmNode| preorder(c),
        ).flatten(),
        forall|n: LhmNode| #[trigger]
            preorder(root).contains(n) <==> n == root || exists|i: int|
                0 <= i < root.children@.len() && (#[trigger] preorder(
                    root.children@[i],
                )).contains(n),
{
    let kids = root.children@;
    let rest = preorder_all(kids);
    a_row_is_all_its_nodes(kids);
    assert forall|n: LhmNode| #[trigger]
        preorder(root).contains(n) <==> n == root || exists|i: int|
            0 <= i < kids.len() && (#[trigger] preorder(kids[i])).contains(n) by {
        if preorder(root).contains(n) {
            let k = choose|k: int| 0 <= k < preorder(root).len() && preorder(root)[k] == n;
            if k > 0 {
                assert(rest[k - 1] == n);
                assert(rest.contains(n));
            }
        }
        if n == root {
            assert(preorder(root)[0] == n);
        }
        if rest.contains(n) {
            let k = choose|k: int| 0 <= k < rest.len() && rest[k] == n;
            assert(preorder(root)[k + 1] == n);
        }
    }
}

proof fn a_row_is_all_its_nodes(nodes: Seq<LhmNode>)
    ensures
        preorder_all(nodes) == nodes.map_values(|c: LhmNode| preorder(c)).flatten(),
        forall|n: LhmNode| #[trigger]
            preorder_all(nodes).contains(n) <==> exists|i: int|
                0 <= i < nodes.len() && (#[trigger] preorder(nodes[i])).contains(n),
    decreases nodes.len(),
{
    let f = |c: LhmNode| preorder(c);
    let mapped = nodes.map_values(f);
    if nodes.len() > 0 {
        let rest = nodes.drop_first();
        a_row_is_all_its_nodes(rest);
        assert(mapped.drop_first() =~= rest.map_values(f));
        assert(mapped.first() == preorder(nodes[0]));
        let first = preorder(nodes[0]);
        let others = preorder_all(rest);
        assert forall|n: LhmNode| #[trigger]
            preorder_all(nodes).contains(n) <==> exists|i: int|
                0 <= i < nodes.len() && (#[trigger] preorder(nodes[i])).contains(n) by {
            if preorder_all(nodes).contains(n) {
                let k = choose|k: int|
                    0 <= k < preorder_all(nodes).len() && preorder_all(nodes)[k] == n;
                if k < first.len() {
                    assert(first[k] == n);
                    assert(preorder(nodes[0]).contains(n));
                } else {
                    assert(others[k - first.len()] == n);
                    assert(others.contains(n));
                    let i = choose|i: int|
                        0 <= i < rest.len() && (#[trigger] preorder(rest[i])).contains(n);
                    assert(rest[i] == nodes[i + 1]);
                    assert(preorder(nodes[i + 1]).contains(n));
                }
            }
            if exists|i: int|
                0 <= i < nodes.len() && (#[trigger] preorder(nodes[i])).contains(n) {
                let i = choose|i: int|
                    0 <= i < nodes.len() && (#[trigger] preorder(nodes[i])).contains(n);
                if i == 0 {
                    let k = choose|k: int| 0 <= k < first.len() && first[k] == n;
                    assert(preorder_all(nodes)[k] == n);
                } else {
                    assert(rest[i - 1] == nodes[i]);
                    assert(preorder(rest[i - 1]).contains(n));
                    assert(others.contains(n));
                    let k = choose|k: int| 0 <= k < others.len() && others[k] == n;
                    assert(preorder_all(nodes)[first.len() + k] == n);
                }
            }
        }
    } else {
        assert(mapped =~= Seq::<Seq<LhmNode>>::empty());
    }
}

/// The node that is reached from the root by going to the child with the first number, from there to
/// its child with the second, and so on, if there is one.
pub open spec fn node_at(root: LhmNode, path: Seq<int>) -> Option<LhmNode>
    decreases path.len(),
{
    if path.len() == 0 {
        Some(root)
    } else if 0 <= path[0] < root.children@.len() {
        node_at(root.children@[path[0]], path.drop_first())
    } else {
        None
    }
}

/// A search that finds nothing has looked everywhere: no node with the text can be reached from the
/// root, along any path. One that finds something found a node with the text.
pub proof fn search_looks_everywhere(root: LhmNode, target: Seq<char>, path: Seq<int>)
    ensures
        node_at(root, path) is Some && node_at(root, path)->0.text@ == target ==> first_with_text(
            preorder(root),
            target,
        ) is Some,
        first_with_text(preorder(root), target) matches Some(n) ==> n.text@ == target && preorder(
            root,
        ).contains(n),
{
    if node_at(root, path) is Some {
        reached_nodes_are_in_the_tree(root, path);
    }
    first_is_the_first(preorder(root), target);
}

proof fn reached_nodes_are_in_the_tree(root: LhmNode, path: Seq<int>)
    requires
        node_at(root, path) is Some,
    ensures
        preorder(root).contains(node_at(root, path)->0),
    decreases path.len(),
{
    a_tree_is_its_root_and_all_children(root);
    if path.len() > 0 {
        reached_nodes_are_in_the_tree(root.children@[path[0]], path.drop_first());
    }
}

/// Of a row of nodes, the first with the text is found: none before it has the text, and where none is
/// found none has it.
pub proof fn first_is_the_first(nodes: Seq<LhmNode>, target: Seq<char>)
    ensures
        match first_with_text(nodes, target) {
            Some(n) => exists|i: int|
                {
                    &&& 0 <= i < nodes.len()
                    &&& #[trigger] nodes[i] == n
                    &&& n.text@ == target
                    &&& forall|j: int| 0 <= j < i ==> (#[trigger] nodes[j]).text@ != target
                },
            None => forall|j: int| 0 <= j < nodes.len() ==> (#[trigger] nodes[j]).text@ != target,
        },
    decreases nodes.len(),
{
    if nodes.len() > 0 {
        let rest = nodes.drop_first();
        first_is_the_first(rest, target);
        assert forall|j: int| 1 <= j < nodes.len() implies #[trigger] nodes[j] == rest[j - 1] by {}
        if nodes[0].text@ != target {
            match first_with_text(rest, target) {
                Some(n) => {
                    let i = choose|i: int|
                        {
                            &&& 0 <= i < rest.len()
                            &&& #[trigger] rest[i] == n
                            &&& n.text@ == target
                            &&& forall|j: int|
                                0 <= j < i ==> (#[trigger] rest[j]).text@ != target
                        };
                    assert(nodes[i + 1] == n);
                    assert forall|j: int| 0 <= j < i + 1 implies (
                    #[trigger] nodes[j]).text@ != target by {
                        if j > 0 {
                            assert(rest[j - 1].text@ != target);
                        }
                    }
                },
                None => {
                    assert forall|j: int| 0 <= j < nodes.len() implies (
                    #[trigger] nodes[j]).text@ != target by {
                        if j > 0 {
                            assert(rest[j - 1].text@ != target);
                        }
                    }
                },
            }
        } else {
            assert(nodes[0] == first_with_text(nodes, target)->0);
        }
    }
}

/// The temperature comes from the sensor `Core (Tctl/Tdie)` where the tree has one, else from
/// `CPU Package`, else from `Package`, and there is none without any of them. What is read is the number
/// at the front of the sensor's value, and nothing else.
pub proof fn preferred_sensor_decides<T, P: Fn(&str) -> Option<T>>(
    root: LhmNode,
    parse: P,
    f: spec_fn(Seq<char>) -> Option<T>,
    temp: Option<T>,
)
    requires
        forall|t: &str, r: Option<T>| #[trigger] call_ensures(parse, (t,), r) ==> r == f(t@),
        is_cpu_temp(root, parse, temp),
    ensures
        ({
            let core = first_with_text(preorder(root), "Core (Tctl/Tdie)"@);
            let cpu = first_with_text(preorder(root), "CPU Package"@);
            let package = first_with_text(preorder(root), "Package"@);
            &&& core is Some ==> temp == f(leading_number(core->0.value@))
            &&& core is None && cpu is Some ==> temp == f(leading_number(cpu->0.value@))
            &&& core is None && cpu is None && package is Some ==> temp == f(
                leading_number(package->0.value@),
            )
            &&& core is None && cpu is None && package is None ==> temp is None
        }),
{
    let rest = candidates().drop_first();
    assert(rest =~= seq!["CPU Package"@, "Package"@]);
    assert(rest.drop_first() =~= seq!["Package"@]);
    assert(rest.drop_first().drop_first() =~= Seq::<Seq<char>>::empty());
    reveal_with_fuel(first_hit, 4);
}

/// Any value splits into whitespace, the number that is read, and the rest: digits, points and signs
/// belong to the number, and the first other character ends it.
pub proof fn any_value_splits(space: Seq<char>, number: Seq<char>, rest: Seq<char>)
    requires
        forall|i: int| 0 <= i < space.len() ==> is_white_space(#[trigger] space[i]),
        forall|i: int|
            0 <= i < number.len() ==> {
                let c = #[trigger] number[i];
                '0' <= c <= '9' || c == '.' || c == '-' || c == '+'
            },
        rest.len() > 0 ==> !('0' <= rest[0] <= '9' || rest[0] == '.' || rest[0] == '-' || rest[0]
            == '+'),
        rest.len() > 0 && number.len() == 0 ==> !is_white_space(rest[0]),
    ensures
        leading_number(space + number + rest) == number,
{
    let s = space + number + rest;
    assert(s =~= space + (number + rest));
    leading_space_goes(space, number + rest);
    if number.len() > 0 {
        assert((number + rest)[0] == number[0]);
    } else {
        assert(number + rest =~= rest);
    }
    number_ends_with_it(number, rest);
    assert((number + rest).take(number.len() as int) =~= number);
}

/// Whitespace are the space, the five ASCII controls from tab to carriage return, and nothing else in
/// ASCII.
pub proof fn ascii_white_space(c: char)
    requires
        c as u32 <= 0x7f,
    ensures
        is_white_space(c) <==> c as u32 == 0x20 || 0x09 <= c as u32 <= 0x0d,
{
}

/// The number at the very front of a text goes up to the first character that is no digit, point or
/// sign, and nothing in front of it is skipped.
pub proof fn number_stands_at_the_very_front(number: Seq<char>, rest: Seq<char>)
    requires
        forall|i: int|
            0 <= i < number.len() ==> {
                let c = #[trigger] number[i];
                '0' <= c <= '9' || c == '.' || c == '-' || c == '+'
            },
        rest.len() > 0 ==> !('0' <= rest[0] <= '9' || rest[0] == '.' || rest[0] == '-' || rest[0]
            == '+'),
    ensures
        number_prefix_of(number + rest) == number,
{
    number_ends_with_it(number, rest);
    assert((number + rest).take(number.len() as int) =~= number);
}

} // verus!
