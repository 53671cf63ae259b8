use my_cms::templates::{RenderContext, TemplateStore};
use std::sync::Arc;
use tokio::sync::RwLock;

fn pairs(items: &[(&str, &str)]) -> Vec<(String, String)> {
    items.iter().map(|(n, s)| (n.to_string(), s.to_string())).collect()
}

#[test]
fn concurrent_renders_always_see_one_whole_template_set() {
    let rt = tokio::runtime::Builder::new_multi_thread()
        .worker_threads(2)
        .enable_all()
        .build()
        .unwrap();
    rt.block_on(async {
        let v1 = pairs(&[("home", "old {{ title }}"), ("side", "old side")]);
        let v2 = pairs(&[("home", "new {{ title }}"), ("side", "new side")]);
        let store = Arc::new(RwLock::new(TemplateStore::new(&v1).unwrap()));

        let mut readers = Vec::new();
        for _ in 0..8 {
            let store = Arc::clone(&store);
            readers.push(tokio::spawn(async move {
                let mut ctx = RenderContext::new();
                ctx.insert("title", "T");
                let guard = store.read().await;
                let home = guard.render("home", &ctx).unwrap();
                let side = guard.render("side", &ctx).unwrap();
                (home, side)
            }));
        }

        let writer = {
            let store = Arc::clone(&store);
            let v2 = v2.clone();
            tokio::spawn(async move {
                let mut guard = store.write().await;
                guard.reload(&v2).unwrap();
            })
        };

        writer.await.unwrap();
        for reader in readers {
            let (home, side) = reader.await.unwrap();
            let all_old = home == "old T" && side == "old side";
            let all_new = home == "new T" && side == "new side";
            assert!(all_old || all_new, "a render observed a mixed template set");
        }
    });
}
