use hmi_server::export::{export_assets, AssetKind, ExportError};

const DIAGRAM: &str = r#"<mxGraphModel><root>
  <mxCell id="0"/>
  <mxCell id="1" parent="0"/>
  <mxCell id="2" parent="1" style="breaker">
    <Object><Object type="breaker" mRID="b-1" label="Main breaker"/></Object>
    <mxGeometry x="10.5" y="20" width="30" height="30" as="geometry"/>
  </mxCell>
  <mxCell id="3" parent="1">
    <Object><Object type="switch-vertical" mRID="s-1" label="Tie"/></Object>
    <mxGeometry width="30" as="geometry"/>
  </mxCell>
  <mxCell id="4" parent="1" edge="1">
    <mxGeometry relative="1" as="geometry"/>
  </mxCell>
  <mxCell id="5" parent="1">
    <Object><Object type="solar" mRID="pv-1" label="PV"/></Object>
    <mxGeometry x="1" y="2" as="geometry"/>
  </mxCell>
  <mxCell id="6" parent="2">
    <Object><Object type="recloser" mRID="r-1" label="Nested"/></Object>
    <mxGeometry x="1" y="2" as="geometry"/>
  </mxCell>
  <mxCell id="7" parent="1">
    <Object type="regulator" mRID="outer" label="Outer only"/>
    <mxGeometry x="5" y="6" as="geometry"/>
  </mxCell>
</root></mxGraphModel>"#;

#[test]
fn devices_on_the_top_layer_are_exported() {
    let assets = export_assets(DIAGRAM).ok().expect("diagram exports");
    assert_eq!(assets.len(), 2);
    assert_eq!(assets[0].kind, AssetKind::Breaker);
    assert_eq!(assets[0].name, "Main breaker");
    assert_eq!(assets[0].mrid, "b-1");
    assert_eq!(assets[0].x, "10.5");
    assert_eq!(assets[0].y, "20");
    assert_eq!(assets[1].kind, AssetKind::Switch);
    assert_eq!(assets[1].mrid, "s-1");
    assert_eq!(assets[1].x, "0.0");
    assert_eq!(assets[1].y, "0.0");
}

#[test]
fn malformed_documents_and_missing_root() {
    assert!(matches!(export_assets("<a><b></a>"), Err(ExportError::ParseFailed)));
    assert!(matches!(export_assets("<mxGraphModel><cell/></mxGraphModel>"), Err(ExportError::NoRoot)));
    let empty = export_assets("<root/>").ok().expect("empty diagram exports");
    assert_eq!(empty.len(), 0);
}
