use coin_counter::render::{render_plan, RenderOp};

fn apply(content: &mut Vec<String>, ops: &[RenderOp]) {
    for op in ops {
        match op {
            RenderOp::Clear => content.clear(),
            RenderOp::Append(s) => content.push(s.clone()),
        }
    }
}

#[test]
fn plan_clears_then_appends() {
    let lines = vec!["a".to_string(), "b".to_string()];
    let ops = render_plan(&lines);
    assert_eq!(ops.len(), 3);
    assert!(matches!(ops[0], RenderOp::Clear));
    assert!(matches!(&ops[1], RenderOp::Append(s) if s == "a"));
    assert!(matches!(&ops[2], RenderOp::Append(s) if s == "b"));
}

#[test]
fn rendering_twice_does_not_accumulate() {
    let mut content = vec!["stale".to_string()];
    let first = vec!["State quarter from Ohio!".to_string(), "The 1 coins in your purse are worth $0.25".to_string()];
    let second = vec!["The 0 coins in your purse are worth $0.00".to_string()];
    apply(&mut content, &render_plan(&first));
    assert_eq!(content, first);
    apply(&mut content, &render_plan(&second));
    assert_eq!(content, second);
    apply(&mut content, &render_plan(&second));
    assert_eq!(content, second);
}
